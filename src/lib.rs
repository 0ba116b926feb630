//! An Apple 1 emulator core: a cycle-counting MOS 6502 interpreter, the address
//! bus that routes its accesses, RAM/ROM regions and the MC6821 peripheral
//! interface adapter that connects keyboard and display.

pub mod address_bus;
pub mod memory;
pub mod mc6821;
pub mod mos6502;
pub mod addressmodes;
pub mod operations;
pub mod apple1;

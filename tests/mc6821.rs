use rust6502::mc6821::{InputSignal, InterruptSignal, Signal, MC6821};

const KBD: u16 = 0xD010;
const KBDCR: u16 = 0xD011;
const DSP: u16 = 0xD012;
const DSPCR: u16 = 0xD013;

#[test]
fn test_output_channel() {
    let mut pia = MC6821::new();

    let expected = 0x5A;

    pia.int_write(DSP, 0x7F); // DDRB: every bit but the highest is an output
    pia.int_write(DSPCR, 0x04); // CRB: select output port B
    pia.int_write(DSP, expected);

    let actual = pia.take_output_b();
    assert_eq!(actual, vec![expected]);
}

#[test]
fn test_input_channel() {
    let mut pia = MC6821::new();
    let expected = 0x5A;

    pia.send_input(InputSignal::IRA(expected));

    assert_eq!(pia.int_read(KBD), expected);
}

#[test]
fn tests_test_input_channel() {
    let mut pia = MC6821::new();
    let expected = 0x5A;

    pia.int_write(DSP, 0x7F);
    pia.int_write(DSPCR, 0x04);
    pia.int_write(DSP, expected);

    let out = pia.take_output_b();
    assert_eq!(out.first().copied(), Some(expected));
}

#[test]
fn test_ca2_and_cb2_input() {
    let mut pia = MC6821::new();

    pia.send_input(InputSignal::CA2(Signal::Rise));
    pia.send_input(InputSignal::CB2(Signal::Rise));
    pia.process_input();

    assert_eq!(pia.get_ca2(), Signal::Rise);
    assert_eq!(pia.get_cb2(), Signal::Rise);
}

#[test]
fn reset_state() {
    let pia = MC6821::new();
    assert_eq!(pia.a.ir, 0xFF);
    assert_eq!(pia.a.ddr_neg, 0xFF);
    assert_eq!(pia.b.ddr_neg, 0xFF);
    assert_eq!(pia.a.cr, 0);
    assert_eq!(pia.get_ca1(), Signal::Rise);
    assert_eq!(pia.get_ca2(), Signal::Rise);
    assert_eq!(pia.get_cb1(), Signal::Fall);
    assert_eq!(pia.get_cb2(), Signal::Fall);
    assert_eq!(pia.len(), 0);
}

#[test]
fn output_handshake_drives_cb2_low() {
    let mut pia = MC6821::new();
    pia.set_cb2(Signal::Rise);
    pia.int_write(DSP, 0x7F);
    // CRB: port selected, CB2 in output handshake mode (bit 5 set, bit 4 and 3 clear)
    pia.int_write(DSPCR, 0x24);
    assert_eq!(pia.get_cb2(), Signal::Rise);
    pia.int_write(DSP, 0x5A);
    assert_eq!(pia.take_output_b(), vec![0x5A]);
    assert_eq!(pia.get_cb2(), Signal::Fall);
    // the acknowledging edge on CB1 (falling, as bit 1 is clear) raises CB2 again
    pia.set_cb1(Signal::Rise);
    pia.set_cb1(Signal::Fall);
    assert_eq!(pia.get_cb2(), Signal::Rise);
}

#[test]
fn pulse_output_returns_cb2_high() {
    let mut pia = MC6821::new();
    pia.int_write(DSPCR, 0x2C);
    pia.int_write(DSP, 0x41);
    assert_eq!(pia.get_cb2(), Signal::Rise);
}

#[test]
fn port_value_mixes_output_and_input_bits() {
    let mut pia = MC6821::new();
    pia.set_input_b(0xF0);
    pia.int_write(DSP, 0x0F); // DDRB: low nibble out
    pia.int_write(DSPCR, 0x04);
    pia.int_write(DSP, 0x3C);
    assert_eq!(pia.take_output_b(), vec![0xFC]);
    assert_eq!(pia.int_read(DSP), 0xFC);
}

#[test]
fn active_edge_latches_flag_and_port_read_clears_it() {
    let mut pia = MC6821::new();
    // CRA 0xA7: IRQ on CA1 enabled, rising edge active, port A selected
    pia.int_write(KBDCR, 0xA7);
    pia.send_input(InputSignal::CA1(Signal::Fall));
    pia.send_input(InputSignal::IRA(0xC1));
    pia.send_input(InputSignal::CA1(Signal::Rise));
    pia.send_input(InputSignal::CA1(Signal::Fall));
    assert_eq!(pia.int_read(KBDCR), 0xA7 | 0x80);
    assert_eq!(pia.take_interrupts(), vec![InterruptSignal::IRQ]);
    assert_eq!(pia.int_read(KBD), 0xC1);
    assert_eq!(pia.int_read(KBDCR), 0x27);
}

#[test]
fn control_write_keeps_interrupt_flags() {
    let mut pia = MC6821::new();
    pia.set_ca1(Signal::Fall); // falling edge is active with bit 1 clear
    assert_eq!(pia.int_read(KBDCR) & 0x80, 0x80);
    pia.int_write(KBDCR, 0xFF);
    assert_eq!(pia.int_read(KBDCR), 0xBF);
}

#[test]
fn ca2_edge_sets_its_own_flag() {
    let mut pia = MC6821::new();
    // CRA 0x18: CA2 input, rising edge active, IRQ on CA2 enabled
    pia.int_write(KBDCR, 0x18);
    pia.set_ca2(Signal::Fall);
    pia.set_ca2(Signal::Rise);
    assert_eq!(pia.int_read(KBDCR), 0x58);
    assert_eq!(pia.get_ca1(), Signal::Rise);
    assert_eq!(pia.take_interrupts(), vec![InterruptSignal::IRQ]);
}

#[test]
fn ddr_write_without_port_select() {
    let mut pia = MC6821::new();
    pia.int_write(KBD, 0x0F);
    assert_eq!(pia.a.ddr, 0x0F);
    assert_eq!(pia.a.ddr_neg, 0xF0);
    assert!(pia.take_output_a().is_empty());
    pia.int_write(KBDCR, 0x04);
    pia.int_write(KBD, 0x05);
    assert_eq!(pia.take_output_a(), vec![0xF5]);
}

//! The address bus: routes each 16-bit address, block by block, to the
//! device registered for it.
use vstd::prelude::*;

use crate::mc6821::{InputSignal, PiaModel, MC6821};
use crate::memory::Memory;

verus! {

/// A bus access that no device answers, or a device registration that the bus refuses.
#[derive(Debug)]
pub struct AddressingError {
    pub operation: String,
    pub addr: u16,
}

impl AddressingError {
    pub fn new(operation: &str, addr: u16) -> (r: AddressingError)
        ensures
            r.operation@ == operation@,
            r.addr == addr,
    {
        AddressingError { operation: operation.to_owned(), addr }
    }
}

/// Marks a block that no device answers.
pub const NO_DEVICE: usize = 0xFFFF_FFFF;

/// The size of the 6502 address space.
pub const ADDRESS_SPACE: usize = 0x10000;

/// A device that the bus can route accesses to.
pub enum Component {
    Memory(Memory),
    Pia(MC6821),
}

/// The abstract state of a device.
pub enum DeviceModel {
    Memory { offset: u16, bytes: Seq<u8>, read_only: bool },
    Pia(PiaModel),
}

impl View for Component {
    type V = DeviceModel;

    open spec fn view(&self) -> DeviceModel {
        match self {
            Component::Memory(m) => DeviceModel::Memory {
                offset: m.offset,
                bytes: m.mem@,
                read_only: m.read_only,
            },
            Component::Pia(p) => DeviceModel::Pia(p@),
        }
    }
}

impl Component {
    pub open spec fn wf(&self) -> bool {
        match self {
            Component::Memory(_) => true,
            Component::Pia(p) => p.wf(),
        }
    }

    /// The number of bytes the device claims; a PIA claims none.
    pub fn len(&self) -> (r: usize)
        ensures
            r == self@.len(),
    {
        match self {
            Component::Memory(m) => m.len(),
            Component::Pia(p) => p.len(),
        }
    }
}

impl DeviceModel {
    pub open spec fn len(&self) -> nat {
        match self {
            DeviceModel::Memory { bytes, .. } => bytes.len(),
            DeviceModel::Pia(_) => 0,
        }
    }

    /// A read of `addr`: the new state, and the byte or `None` when a memory
    /// region does not hold `addr`.
    pub open spec fn read(self, addr: u16) -> (DeviceModel, Option<u8>) {
        match self {
            DeviceModel::Memory { offset, bytes, .. } => {
                if offset <= addr && addr - offset < bytes.len() {
                    (self, Some(bytes[addr - offset]))
                } else {
                    (self, None)
                }
            },
            DeviceModel::Pia(p) => (DeviceModel::Pia(p.read(addr).0), Some(p.read(addr).1)),
        }
    }

    /// A write of `data` to `addr`: the new state, and whether the device
    /// took it. A read-only region takes no write.
    pub open spec fn write(self, addr: u16, data: u8) -> (DeviceModel, bool) {
        match self {
            DeviceModel::Memory { offset, bytes, read_only } => {
                if offset <= addr && addr - offset < bytes.len() && !read_only {
                    (
                        DeviceModel::Memory { offset, bytes: bytes.update(addr - offset, data), read_only },
                        true,
                    )
                } else {
                    (self, false)
                }
            },
            DeviceModel::Pia(p) => (DeviceModel::Pia(p.write(addr, data)), true),
        }
    }
}

/// Routes each 16-bit address to the device registered for its block.
pub struct AddressBus {
    pub block_size: usize,
    /// for each block, the index of its device in `components`, or `NO_DEVICE`
    pub block_component_map: Vec<usize>,
    pub components: Vec<Component>,
}

/// The abstract state of a bus.
pub struct BusModel {
    pub block_size: nat,
    pub map: Seq<usize>,
    pub devices: Seq<DeviceModel>,
}

impl View for AddressBus {
    type V = BusModel;

    open spec fn view(&self) -> BusModel {
        BusModel {
            block_size: self.block_size as nat,
            map: self.block_component_map@,
            devices: self.components@.map_values(|c: Component| c@),
        }
    }
}

impl BusModel {
    /// What accesses never change: the blocks, the routes, and which devices
    /// are PIAs.
    #[verifier::opaque]
    pub open spec fn layout(self) -> (nat, Seq<usize>, Seq<bool>) {
        (self.block_size, self.map, Seq::new(self.devices.len(), |i: int| self.devices[i] is Pia))
    }

    /// Whether device `index` is a PIA.
    pub open spec fn has_pia(self, index: int) -> bool {
        0 <= index < self.devices.len() && self.devices[index] is Pia
    }

    /// The index of the device that answers `addr`, if any.
    pub open spec fn route(self, addr: u16) -> Option<int> {
        let block = addr as int / self.block_size as int;
        if self.block_size > 0 && block < self.map.len() && self.map[block] < self.devices.len() {
            Some(self.map[block] as int)
        } else {
            None
        }
    }

    /// A read of `addr` through the bus: the new state and the byte, or `None`
    /// for an addressing error.
    pub open spec fn read(self, addr: u16) -> (BusModel, Option<u8>) {
        match self.route(addr) {
            Some(k) => {
                let (d, v) = self.devices[k].read(addr);
                (BusModel { devices: self.devices.update(k, d), ..self }, v)
            },
            None => (self, None),
        }
    }

    /// A write of `data` to `addr` through the bus: the new state and whether
    /// a device took it.
    pub open spec fn write(self, addr: u16, data: u8) -> (BusModel, bool) {
        match self.route(addr) {
            Some(k) => {
                let (d, ok) = self.devices[k].write(addr, data);
                (BusModel { devices: self.devices.update(k, d), ..self }, ok)
            },
            None => (self, false),
        }
    }

    /// The block that holds `from`.
    pub open spec fn start_block(self, from: u16) -> int {
        from as int / self.block_size as int
    }

    /// The first block past a device of `size` bytes registered at `from`.
    pub open spec fn end_block(self, from: u16, size: nat) -> int {
        (from as int + size + self.block_size - 1) / self.block_size as int
    }

    /// Whether a device of `len` bytes can be registered at `from` for `size` bytes:
    /// the base and both sizes are whole blocks, the range lies in the address
    /// space and no block of it is taken.
    pub open spec fn can_register(self, from: u16, size: nat, len: nat) -> bool {
        &&& from as nat % self.block_size == 0
        &&& size % self.block_size == 0
        &&& len % self.block_size == 0
        &&& size <= ADDRESS_SPACE
        &&& self.devices.len() + 1 < NO_DEVICE
        &&& self.end_block(from, size) <= self.map.len()
        &&& forall|b: int|
            self.start_block(from) <= b < self.end_block(from, size) ==> #[trigger] self.map[b]
                == NO_DEVICE
    }
}

impl AddressBus {
    pub open spec fn wf(&self) -> bool {
        &&& 0 < self.block_size <= ADDRESS_SPACE
        &&& self.components@.len() < NO_DEVICE
        &&& forall|i: int| 0 <= i < self.components@.len() ==> (#[trigger] self.components@[i]).wf()
    }

    /// An empty bus over the 64 KiB address space, cut into blocks of `block_size` bytes.
    pub fn new(block_size: usize) -> (r: AddressBus)
        requires
            0 < block_size <= ADDRESS_SPACE,
        ensures
            r.wf(),
            r@.block_size == block_size,
            r@.devices.len() == 0,
            r@.map.len() == ADDRESS_SPACE as int / block_size as int,
            forall|b: int| 0 <= b < r@.map.len() ==> #[trigger] r@.map[b] == NO_DEVICE,
    {
        let n = ADDRESS_SPACE / block_size;
        let mut map: Vec<usize> = Vec::new();
        let mut i: usize = 0;
        while i < n
            invariant
                i <= n,
                map@.len() == i,
                forall|b: int| 0 <= b < i ==> #[trigger] map@[b] == NO_DEVICE,
            decreases n - i,
        {
            map.push(NO_DEVICE);
            i = i + 1;
        }
        let r = AddressBus { block_size, block_component_map: map, components: Vec::new() };
        assert(r@.devices =~= Seq::<DeviceModel>::empty());
        r
    }

    /// Registers `component` for the `size` bytes from `from_addr`. Refused,
    /// with the bus unchanged, when the base, `size` or the device's length is
    /// not a whole number of blocks, when the range runs past the address
    /// space, or when one of its blocks is already taken.
    pub fn add_component(&mut self, from_addr: u16, size: usize, component: Component) -> (r:
        Result<(), AddressingError>)
        requires
            old(self).wf(),
            component.wf(),
        ensures
            final(self).wf(),
            r is Ok <==> old(self)@.can_register(from_addr, size as nat, component@.len()),
            r is Err ==> final(self)@ == old(self)@,
            r is Ok ==> final(self)@ == (BusModel {
                map: Seq::new(
                    old(self)@.map.len(),
                    |b: int|
                        if old(self)@.start_block(from_addr) <= b < old(self)@.end_block(
                            from_addr,
                            size as nat,
                        ) {
                            old(self)@.devices.len() as usize
                        } else {
                            old(self)@.map[b]
                        },
                ),
                devices: old(self)@.devices.push(component@),
                ..old(self)@
            }),
    {
        let bs = self.block_size;
        if from_addr as usize % bs != 0 || size % bs != 0 || component.len() % bs != 0 || size
            > ADDRESS_SPACE {
            return Err(AddressingError::new("add_component", from_addr));
        }
        let from_block = from_addr as usize / bs;
        let to_block = (from_addr as usize + size + bs - 1) / bs;
        if to_block > self.block_component_map.len() || self.components.len() >= NO_DEVICE - 1 {
            return Err(AddressingError::new("add_component", from_addr));
        }
        proof {
            vstd::arithmetic::div_mod::lemma_div_is_ordered(
                from_addr as int,
                from_addr as int + size + bs - 1,
                bs as int,
            );
        }
        let mut b = from_block;
        while b < to_block
            invariant
                self@ == old(self)@,
                self.wf(),
                self.block_size == bs,
                from_block == self@.start_block(from_addr),
                to_block == self@.end_block(from_addr, size as nat),
                from_block <= b <= to_block,
                to_block <= self.block_component_map@.len(),
                forall|j: int| from_block <= j < b ==> #[trigger] self.block_component_map@[j]
                    == NO_DEVICE,
            decreases to_block - b,
        {
            if self.block_component_map[b] != NO_DEVICE {
                return Err(AddressingError::new("add_component", from_addr));
            }
            b = b + 1;
        }
        let key = self.components.len();
        let ghost old_devices = self@.devices;
        self.components.push(component);
        assert(self@.devices =~= old_devices.push(component@));
        let ghost map0 = self.block_component_map@;
        let mut b = from_block;
        while b < to_block
            invariant
                from_block <= b <= to_block,
                to_block <= self.block_component_map@.len(),
                self.block_component_map@.len() == map0.len(),
                self.wf(),
                self@.devices == old(self)@.devices.push(component@),
                self.block_size == old(self).block_size,
                key == old(self)@.devices.len(),
                map0 == old(self)@.map,
                from_block == old(self)@.start_block(from_addr),
                to_block == old(self)@.end_block(from_addr, size as nat),
                forall|j: int|
                    0 <= j < map0.len() ==> #[trigger] self.block_component_map@[j] == if from_block
                        <= j < b {
                        key
                    } else {
                        map0[j]
                    },
            decreases to_block - b,
        {
            self.block_component_map.set(b, key);
            b = b + 1;
        }
        assert(self@.map =~= Seq::new(
            map0.len(),
            |j: int|
                if old(self)@.start_block(from_addr) <= j < old(self)@.end_block(
                    from_addr,
                    size as nat,
                ) {
                    old(self)@.devices.len() as usize
                } else {
                    old(self)@.map[j]
                },
        ));
        Ok(())
    }

    fn route(&self, addr: u16) -> (r: Option<usize>)
        requires
            self.wf(),
        ensures
            r matches Some(k) ==> self@.route(addr) == Some(k as int),
            r is None ==> self@.route(addr) is None,
    {
        let block = addr as usize / self.block_size;
        if block < self.block_component_map.len() {
            let key = self.block_component_map[block];
            if key < self.components.len() {
                return Some(key);
            }
        }
        None
    }

    /// Reads `addr` from the device registered for its block. An unmapped
    /// block, or an address that the device does not hold, is an error.
    pub fn read(&mut self, addr: u16) -> (r: Result<u8, AddressingError>)
        requires
            old(self).wf(),
        ensures
            final(self).wf(),
            final(self)@ == old(self)@.read(addr).0,
            final(self)@.layout() == old(self)@.layout(),
            r is Ok <==> old(self)@.read(addr).1 is Some,
            r matches Ok(v) ==> old(self)@.read(addr).1 == Some(v),
    {
        proof {
            lemma_access_keeps_layout(old(self)@, addr, 0);
        }
        match self.route(addr) {
            None => Err(AddressingError::new("read", addr)),
            Some(key) => {
                let ghost devices0 = self@.devices;
                let ghost comps0 = self.components@;
                let r = match &mut self.components[key] {
                    Component::Memory(m) => m.read(addr),
                    Component::Pia(p) => Ok(p.int_read(addr)),
                };
                proof {
                    assert(self@.devices =~= devices0.update(key as int, self.components@[key as int]@));
                    assert forall|i: int| 0 <= i < self.components@.len() implies (#[trigger] self.components@[i]).wf() by {
                        if i != key {
                            assert(self.components@[i] == comps0[i]);
                        }
                    }
                }
                r
            },
        }
    }

    /// Writes `data` to `addr` on the device registered for its block. An
    /// unmapped block, or an address that the device does not hold, is an error.
    pub fn write(&mut self, addr: u16, data: u8) -> (r: Result<(), AddressingError>)
        requires
            old(self).wf(),
        ensures
            final(self).wf(),
            final(self)@ == old(self)@.write(addr, data).0,
            final(self)@.layout() == old(self)@.layout(),
            r is Ok <==> old(self)@.write(addr, data).1,
    {
        proof {
            lemma_access_keeps_layout(old(self)@, addr, data);
        }
        match self.route(addr) {
            None => Err(AddressingError::new("write", addr)),
            Some(key) => {
                let ghost devices0 = self@.devices;
                let ghost comps0 = self.components@;
                let r = match &mut self.components[key] {
                    Component::Memory(m) => m.write(addr, data),
                    Component::Pia(p) => {
                        p.int_write(addr, data);
                        Ok(())
                    },
                };
                proof {
                    assert(self@.devices =~= devices0.update(key as int, self.components@[key as int]@));
                    assert forall|i: int| 0 <= i < self.components@.len() implies (#[trigger] self.components@[i]).wf() by {
                        if i != key {
                            assert(self.components@[i] == comps0[i]);
                        }
                    }
                }
                r
            },
        }
    }

    /// Whether component `index` is a PIA.
    pub open spec fn is_pia(&self, index: int) -> bool {
        self@.has_pia(index)
    }

    /// Queues an input signal for the PIA registered as component `index`.
    /// Returns false, with the bus unchanged, when there is no such PIA.
    pub fn send_input(&mut self, index: usize, s: InputSignal) -> (r: bool)
        requires
            old(self).wf(),
        ensures
            final(self).wf(),
            r == old(self).is_pia(index as int),
            !r ==> final(self)@ == old(self)@,
            r ==> (old(self)@.devices[index as int] matches DeviceModel::Pia(p) && final(self)@ == (
            BusModel {
                devices: old(self)@.devices.update(
                    index as int,
                    DeviceModel::Pia(PiaModel { input: p.input.push(s), ..p }),
                ),
                ..old(self)@
            })),
    {
        if index >= self.components.len() {
            return false;
        }
        let ghost devices0 = self@.devices;
        let ghost comps0 = self.components@;
        let r = match &mut self.components[index] {
            Component::Pia(p) => {
                p.send_input(s);
                true
            },
            Component::Memory(_) => false,
        };
        proof {
            assert(self@.devices =~= devices0.update(index as int, self.components@[index as int]@));
            assert forall|i: int| 0 <= i < self.components@.len() implies (#[trigger] self.components@[i]).wf() by {
                if i != index {
                    assert(self.components@[i] == comps0[i]);
                }
            }
            if !r {
                assert(self@.devices =~= devices0);
            }
        }
        r
    }

    /// Takes the bytes that the PIA registered as component `index` has put
    /// out on port B; empty when there is no such PIA.
    pub fn take_output_b(&mut self, index: usize) -> (r: Vec<u8>)
        requires
            old(self).wf(),
        ensures
            final(self).wf(),
            !old(self).is_pia(index as int) ==> final(self)@ == old(self)@ && r@.len() == 0,
            old(self).is_pia(index as int) ==> (old(self)@.devices[index as int] matches DeviceModel::Pia(p)
                && r@ == p.output_b && final(self)@ == (BusModel {
                devices: old(self)@.devices.update(
                    index as int,
                    DeviceModel::Pia(PiaModel { output_b: Seq::empty(), ..p }),
                ),
                ..old(self)@
            })),
    {
        if index >= self.components.len() {
            return Vec::new();
        }
        let ghost devices0 = self@.devices;
        let ghost comps0 = self.components@;
        let r = match &mut self.components[index] {
            Component::Pia(p) => p.take_output_b(),
            Component::Memory(_) => Vec::new(),
        };
        proof {
            assert(self@.devices =~= devices0.update(index as int, self.components@[index as int]@));
            assert forall|i: int| 0 <= i < self.components@.len() implies (#[trigger] self.components@[i]).wf() by {
                if i != index {
                    assert(self.components@[i] == comps0[i]);
                }
            }
            if !old(self).is_pia(index as int) {
                assert(self@.devices =~= devices0);
            }
        }
        r
    }
}

/// Reads and writes through the bus keep its layout.
pub proof fn lemma_access_keeps_layout(bus: BusModel, addr: u16, data: u8)
    ensures
        bus.read(addr).0.layout() == bus.layout(),
        bus.write(addr, data).0.layout() == bus.layout(),
{
    reveal(BusModel::layout);
    if let Some(k) = bus.route(addr) {
        assert(bus.read(addr).0.layout().2 =~= bus.layout().2);
        assert(bus.write(addr, data).0.layout().2 =~= bus.layout().2);
    }
}

/// Two buses of the same layout have their PIAs at the same places.
pub proof fn lemma_layout_keeps_pias(a: BusModel, b: BusModel, index: int)
    requires
        a.layout() == b.layout(),
    ensures
        a.has_pia(index) == b.has_pia(index),
{
    reveal(BusModel::layout);
    assert(a.layout().2.len() == a.devices.len() && b.layout().2.len() == b.devices.len());
    if 0 <= index < a.devices.len() {
        assert(a.layout().2[index] == (a.devices[index] is Pia));
        assert(b.layout().2[index] == (b.devices[index] is Pia));
    }
}

/// The bus routes `addr` to a writable memory region that holds it.
pub open spec fn is_ram(bus: BusModel, addr: u16) -> bool {
    bus.route(addr) matches Some(k) && bus.devices[k] matches DeviceModel::Memory {
        offset,
        bytes,
        read_only,
    } && offset <= addr && addr - offset < bytes.len() && !read_only
}

/// A byte written to an address in RAM reads back unchanged.
pub proof fn lemma_write_then_read(bus: BusModel, addr: u16, b: u8)
    requires
        is_ram(bus, addr),
    ensures
        bus.write(addr, b).1,
        bus.write(addr, b).0.read(addr).1 == Some(b),
{
}

} // verus!

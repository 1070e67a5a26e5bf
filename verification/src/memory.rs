use crate::mapper::{Mapper, MapperSource};
use crate::ppu::{
    lemma_mapper_after_register_write, lemma_register_access_keeps_wf, read_ppu_ok, read_register_ok, spec_read_register,
    spec_write_register, PPUState, PPU,
};
use vstd::prelude::*;

verus! {

/// A byte-addressed bus that the CPU reads and writes.
///
/// A bus is described by an abstract `State`: what a read returns, and the state after a
/// read or a write, are functions of the state before. Reads may change the state (device
/// registers behind the bus can react to being read). Which addresses can be read or
/// written never changes with the accesses that are made.
pub trait MemoryBus: Sized {
    type State;

    spec fn state(&self) -> Self::State;

    /// A read of `addr` is defined on this state.
    spec fn readable(s: Self::State, addr: u16) -> bool;

    /// A write to `addr` is defined on this state.
    spec fn writable(s: Self::State, addr: u16) -> bool;

    /// The value that a read of `addr` returns.
    spec fn read_value(s: Self::State, addr: u16) -> u8;

    /// The state after a read of `addr`.
    spec fn after_read(s: Self::State, addr: u16) -> Self::State;

    /// The state after `value` is written to `addr`.
    spec fn after_write(s: Self::State, addr: u16, value: u8) -> Self::State;

    /// Accesses never change which addresses can be accessed.
    proof fn lemma_access_kept(s: Self::State, a: u16, b: u16, value: u8)
        ensures
            Self::readable(Self::after_read(s, a), b) == Self::readable(s, b),
            Self::writable(Self::after_read(s, a), b) == Self::writable(s, b),
            Self::readable(Self::after_write(s, a, value), b) == Self::readable(s, b),
            Self::writable(Self::after_write(s, a, value), b) == Self::writable(s, b),
    ;

    fn read_byte(&mut self, addr: u16) -> (r: u8)
        requires
            Self::readable(old(self).state(), addr),
        ensures
            r == Self::read_value(old(self).state(), addr),
            final(self).state() == Self::after_read(old(self).state(), addr),
            forall|b: u16| #[trigger] Self::readable(final(self).state(), b) == Self::readable(old(self).state(), b),
            forall|b: u16| #[trigger] Self::writable(final(self).state(), b) == Self::writable(old(self).state(), b),
    ;

    fn write_byte(&mut self, addr: u16, value: u8)
        requires
            Self::writable(old(self).state(), addr),
        ensures
            final(self).state() == Self::after_write(old(self).state(), addr, value),
            forall|b: u16| #[trigger] Self::readable(final(self).state(), b) == Self::readable(old(self).state(), b),
            forall|b: u16| #[trigger] Self::writable(final(self).state(), b) == Self::writable(old(self).state(), b),
    ;
}

/// The same addresses can be read, and the same written, in both states.
pub open spec fn access_kept<T: MemoryBus>(s1: T::State, s2: T::State) -> bool {
    &&& forall|b: u16| #[trigger] T::readable(s2, b) == T::readable(s1, b)
    &&& forall|b: u16| #[trigger] T::writable(s2, b) == T::writable(s1, b)
}

#[derive(Clone, Copy, Debug, PartialEq, Eq, Structural)]
pub enum MemoryRegion {
    Ram,
    PPU,
    OpenBus,
    Cartridge,
}

/// The region of the CPU address space that `addr` falls in, and the address that the
/// device of that region sees.
pub open spec fn spec_map_address(addr: u16) -> (MemoryRegion, u16) {
    if addr < 0x2000 {
        (MemoryRegion::Ram, (addr % 2048) as u16)
    } else if addr < 0x4000 {
        // The eight PPU registers repeat every eight bytes.
        (MemoryRegion::PPU, (0x2000 + addr % 8) as u16)
    } else if addr >= 0x4020 {
        (MemoryRegion::Cartridge, addr)
    } else {
        (MemoryRegion::OpenBus, 0)
    }
}

/// Pure address-to-region mapping. Returns (region, local_offset).
/// Ram: 0x0000..0x2000 with mirroring (offset = addr % 2048).
pub fn map_address(addr: u16) -> (r: (MemoryRegion, u16))
    ensures
        r == spec_map_address(addr),
{
    if addr <= 0x1FFF {
        (MemoryRegion::Ram, addr % 2048)
    } else if addr <= 0x3FFF {
        // Mirrored after 0x2007
        assert(0x2000 <= addr <= 0x3FFF ==> addr & 0x2007 == 0x2000 + addr % 8) by (bit_vector);
        (MemoryRegion::PPU, addr & 0x2007)
    } else if addr >= 0x4020 {
        (MemoryRegion::Cartridge, addr)
    } else {
        (MemoryRegion::OpenBus, 0)
    }
}

/// The 256-byte page that an address lies in.
pub open spec fn page_of(addr: u16) -> int {
    addr as int / 256
}

/// A memory page is crossed after an increment operation when the high-byte is increased.
pub fn is_memory_page_crossed(base_addr: u16, incremented_addr: u16) -> (r: bool)
    ensures
        r == (page_of(base_addr) != page_of(incremented_addr)),
{
    assert((base_addr & 0xFF00) == (incremented_addr & 0xFF00) <==> base_addr / 256
        == incremented_addr / 256) by (bit_vector);
    (base_addr & 0xFF00) != (incremented_addr & 0xFF00)
}

pub struct RAM {
    pub memory: Vec<u8>,
}

impl RAM {
    pub fn new(size: usize) -> (r: RAM)
        ensures
            r.memory@ == Seq::new(size as nat, |i: int| 0u8),
    {
        RAM { memory: vec![0; size] }
    }
}

impl MemoryBus for RAM {
    type State = Seq<u8>;

    open spec fn state(&self) -> Seq<u8> {
        self.memory@
    }

    open spec fn readable(s: Seq<u8>, addr: u16) -> bool {
        (addr as int) < s.len()
    }

    open spec fn writable(s: Seq<u8>, addr: u16) -> bool {
        (addr as int) < s.len()
    }

    open spec fn read_value(s: Seq<u8>, addr: u16) -> u8 {
        s[addr as int]
    }

    open spec fn after_read(s: Seq<u8>, addr: u16) -> Seq<u8> {
        s
    }

    open spec fn after_write(s: Seq<u8>, addr: u16, value: u8) -> Seq<u8> {
        if (addr as int) < s.len() {
            s.update(addr as int, value)
        } else {
            s
        }
    }

    proof fn lemma_access_kept(s: Seq<u8>, a: u16, b: u16, value: u8) {
    }

    fn read_byte(&mut self, addr: u16) -> (r: u8) {
        self.memory[addr as usize]
    }

    fn write_byte(&mut self, addr: u16, value: u8) {
        self.memory.set(addr as usize, value);
        assert(self.memory@.len() == old(self).memory@.len());
    }
}

/// A bus that behaves as plain memory: reads change nothing, what can be written can be
/// read, a read gives back the last byte written at its address, and a write changes no
/// other address.
pub open spec fn plain_bus<T: MemoryBus>() -> bool {
    &&& forall|s: T::State, a: u16| #[trigger] T::after_read(s, a) == s
    &&& forall|s: T::State, a: u16| #[trigger] T::writable(s, a) ==> T::readable(s, a)
    &&& forall|s: T::State, a: u16, v: u8|
        T::writable(s, a) ==> #[trigger] T::read_value(T::after_write(s, a, v), a) == v
    &&& forall|s: T::State, a: u16, b: u16, v: u8|
        a != b && T::readable(s, b) ==> #[trigger] T::read_value(T::after_write(s, a, v), b)
            == T::read_value(s, b)
}

/// RAM is plain memory.
pub proof fn lemma_ram_is_plain()
    ensures
        plain_bus::<RAM>(),
{
}

/// What is written to a RAM location is what a later read of it gives back, and no other
/// location changes.
pub proof fn lemma_ram_read_after_write(s: Seq<u8>, a: u16, b: u16, value: u8)
    requires
        RAM::writable(s, a),
        RAM::readable(s, b),
    ensures
        RAM::read_value(RAM::after_write(s, a, value), b) == if a == b {
            value
        } else {
            RAM::read_value(s, b)
        },
{
}

/// View over device(s) used at step time; implements MemoryBus using map_address.
pub struct BusView<'a, M: Mapper> {
    pub ram: &'a mut RAM,
    pub ppu: &'a mut PPU,
    pub mapper: &'a mut M,
}

/// The devices behind the CPU bus: the RAM, the PPU and the cartridge.
pub struct BusState<S> {
    pub ram: Seq<u8>,
    pub ppu: PPUState,
    pub mapper: S,
}

/// The PPU registers can be read and written: the PPU is well formed, and every read of
/// the cartridge by the PPU is defined.
pub open spec fn ppu_accessible<M: Mapper>(s: BusState<M::State>) -> bool {
    s.ppu.wf() && forall|a: u16| #[trigger] M::read_defined(s.mapper, MapperSource::PPU, a)
}

/// The devices behind the CPU bus, owned.
pub struct Bus<M: Mapper> {
    pub ram: RAM,
    pub ppu: PPU,
    pub mapper: M,
}

/// A read of `addr` is defined on the bus.
pub open spec fn bus_readable<M: Mapper>(s: BusState<M::State>, addr: u16) -> bool {
    let (region, offset) = spec_map_address(addr);
    match region {
        MemoryRegion::Ram => (offset as int) < s.ram.len(),
        MemoryRegion::PPU => ppu_accessible::<M>(s),
        MemoryRegion::Cartridge => M::read_defined(s.mapper, MapperSource::CPU, offset),
        MemoryRegion::OpenBus => true,
    }
}

/// A write to `addr` is defined on the bus.
pub open spec fn bus_writable<M: Mapper>(s: BusState<M::State>, addr: u16) -> bool {
    let (region, offset) = spec_map_address(addr);
    match region {
        MemoryRegion::Ram => (offset as int) < s.ram.len(),
        MemoryRegion::PPU => ppu_accessible::<M>(s),
        _ => true,
    }
}

/// What a read of `addr` returns.
pub open spec fn bus_read_value<M: Mapper>(s: BusState<M::State>, addr: u16) -> u8 {
    let (region, offset) = spec_map_address(addr);
    match region {
        MemoryRegion::Ram => s.ram[offset as int],
        MemoryRegion::PPU => spec_read_register::<M>(s.ppu, s.mapper, offset).0,
        MemoryRegion::Cartridge => M::read_value(s.mapper, MapperSource::CPU, offset),
        MemoryRegion::OpenBus => 0,
    }
}

/// The bus after a read of `addr`: reads of PPU registers change the PPU.
pub open spec fn bus_after_read<M: Mapper>(s: BusState<M::State>, addr: u16) -> BusState<M::State> {
    let (region, offset) = spec_map_address(addr);
    match region {
        MemoryRegion::PPU => if ppu_accessible::<M>(s) {
            BusState { ppu: spec_read_register::<M>(s.ppu, s.mapper, offset).1, ..s }
        } else {
            s
        },
        _ => s,
    }
}

/// The bus after `value` is written to `addr`. Writes to the PPU region reach the register
/// that the address mirrors.
pub open spec fn bus_after_write<M: Mapper>(s: BusState<M::State>, addr: u16, value: u8) -> BusState<M::State> {
    let (region, offset) = spec_map_address(addr);
    match region {
        MemoryRegion::Ram => BusState { ram: RAM::after_write(s.ram, offset, value), ..s },
        MemoryRegion::Cartridge => BusState {
            mapper: M::after_write(s.mapper, MapperSource::CPU, offset, value),
            ..s
        },
        MemoryRegion::PPU => if ppu_accessible::<M>(s) {
            let (ppu, mapper) = spec_write_register::<M>(s.ppu, s.mapper, offset, value);
            BusState { ppu, mapper, ..s }
        } else {
            s
        },
        MemoryRegion::OpenBus => s,
    }
}

/// Accesses never change which addresses of the bus can be accessed.
#[verifier::spinoff_prover]
#[verifier::rlimit(50)]
pub proof fn lemma_bus_access_kept<M: Mapper>(s: BusState<M::State>, a: u16, b: u16, value: u8)
    ensures
        bus_readable::<M>(bus_after_read::<M>(s, a), b) == bus_readable::<M>(s, b),
        bus_writable::<M>(bus_after_read::<M>(s, a), b) == bus_writable::<M>(s, b),
        bus_readable::<M>(bus_after_write::<M>(s, a, value), b) == bus_readable::<M>(s, b),
        bus_writable::<M>(bus_after_write::<M>(s, a, value), b) == bus_writable::<M>(s, b),
{
    let (region, offset) = spec_map_address(a);
    match region {
        MemoryRegion::Cartridge => {
            let m2 = M::after_write(s.mapper, MapperSource::CPU, offset, value);
            assert forall|x: u16| #[trigger] M::read_defined(m2, MapperSource::PPU, x) == M::read_defined(s.mapper, MapperSource::PPU, x) by {
                M::lemma_read_defined_kept(s.mapper, MapperSource::CPU, offset, value, MapperSource::PPU, x);
            }
            M::lemma_read_defined_kept(s.mapper, MapperSource::CPU, offset, value, MapperSource::CPU, b);
            let s2 = bus_after_write::<M>(s, a, value);
            assert(s2.mapper == m2);
            assert(s2.ppu == s.ppu);
            if ppu_accessible::<M>(s) {
                assert forall|x: u16| #[trigger] M::read_defined(s2.mapper, MapperSource::PPU, x) by {
                    assert(M::read_defined(s.mapper, MapperSource::PPU, x));
                }
            }
            if ppu_accessible::<M>(s2) {
                assert forall|x: u16| #[trigger] M::read_defined(s.mapper, MapperSource::PPU, x) by {
                    assert(M::read_defined(s2.mapper, MapperSource::PPU, x));
                }
            }
            assert(ppu_accessible::<M>(s2) == ppu_accessible::<M>(s));
            let (rb, ob) = spec_map_address(b);
            M::lemma_read_defined_kept(s.mapper, MapperSource::CPU, offset, value, MapperSource::CPU, ob);
            assert(s2.ram == s.ram);
        },
        MemoryRegion::PPU => {
            if ppu_accessible::<M>(s) {
                lemma_register_access_keeps_wf::<M>(s.ppu, s.mapper, offset, value);
                lemma_mapper_after_register_write::<M>(s.ppu, s.mapper, offset, value);
                let m2 = spec_write_register::<M>(s.ppu, s.mapper, offset, value).1;
                assert forall|x: u16| #[trigger] M::read_defined(m2, MapperSource::PPU, x) == M::read_defined(s.mapper, MapperSource::PPU, x) by {
                    M::lemma_read_defined_kept(s.mapper, MapperSource::PPU, s.ppu.reg_v, value, MapperSource::PPU, x);
                }
                M::lemma_read_defined_kept(s.mapper, MapperSource::PPU, s.ppu.reg_v, value, MapperSource::CPU, b);
                assert(ppu_accessible::<M>(bus_after_write::<M>(s, a, value)));
                assert(ppu_accessible::<M>(bus_after_read::<M>(s, a)));
            }
        },
        MemoryRegion::Ram => {
            let s2 = bus_after_write::<M>(s, a, value);
            assert(s2.ram.len() == s.ram.len());
            assert(s2.ppu == s.ppu && s2.mapper == s.mapper);
            assert(bus_after_read::<M>(s, a) == s);
        },
        MemoryRegion::OpenBus => {
            assert(bus_after_write::<M>(s, a, value) == s);
            assert(bus_after_read::<M>(s, a) == s);
        },
    }
}

/// The 2 KiB of internal RAM repeat up to $1FFF: an address and its mirror in the first
/// 2 KiB read, and are written, alike.
pub proof fn lemma_ram_mirroring<M: Mapper>(s: BusState<M::State>, addr: u16, value: u8)
    requires
        addr < 0x2000,
    ensures
        bus_readable::<M>(s, addr) == bus_readable::<M>(s, addr % 2048),
        bus_read_value::<M>(s, addr) == bus_read_value::<M>(s, addr % 2048),
        bus_after_write::<M>(s, addr, value) == bus_after_write::<M>(s, addr % 2048, value),
{
}

/// On the bus, what is written to internal RAM is what a later read of it, or of any of
/// its mirrors, gives back; other RAM locations keep their values.
pub proof fn lemma_bus_ram_read_after_write<M: Mapper>(s: BusState<M::State>, a: u16, b: u16, value: u8)
    requires
        a < 0x2000,
        b < 0x2000,
        s.ram.len() >= 2048,
    ensures
        bus_read_value::<M>(bus_after_write::<M>(s, a, value), b) == if a % 2048 == b % 2048 {
            value
        } else {
            bus_read_value::<M>(s, b)
        },
{
}

/// The eight PPU registers repeat up to $3FFF: a read or a write of a mirror is one of the
/// register at $2000 plus the address modulo 8.
pub proof fn lemma_ppu_register_mirroring<M: Mapper>(s: BusState<M::State>, addr: u16, value: u8)
    requires
        0x2000 <= addr < 0x4000,
    ensures
        bus_writable::<M>(s, addr) == bus_writable::<M>(s, (0x2000 + addr % 8) as u16),
        bus_after_write::<M>(s, addr, value) == bus_after_write::<M>(s, (0x2000 + addr % 8) as u16, value),
        bus_readable::<M>(s, addr) == bus_readable::<M>(s, (0x2000 + addr % 8) as u16),
        bus_read_value::<M>(s, addr) == bus_read_value::<M>(s, (0x2000 + addr % 8) as u16),
        bus_after_read::<M>(s, addr) == bus_after_read::<M>(s, (0x2000 + addr % 8) as u16),
{
}

/// Reads `addr` from the devices of the bus.
pub fn bus_read_byte<M: Mapper>(ram: &mut RAM, ppu: &mut PPU, mapper: &mut M, addr: u16) -> (r: u8)
    requires
        bus_readable::<M>(BusState { ram: old(ram).memory@, ppu: old(ppu)@, mapper: old(mapper).state() }, addr),
    ensures
        ({
            let s = BusState { ram: old(ram).memory@, ppu: old(ppu)@, mapper: old(mapper).state() };
            &&& r == bus_read_value::<M>(s, addr)
            &&& (BusState { ram: final(ram).memory@, ppu: final(ppu)@, mapper: final(mapper).state() })
                == bus_after_read::<M>(s, addr)
        }),
{
    let (region, offset) = map_address(addr);
    match region {
        MemoryRegion::Ram => ram.read_byte(offset),
        MemoryRegion::PPU => {
            assert(read_ppu_ok::<M>(old(mapper).state(), ppu.reg_v.value));
            ppu.read_byte(mapper, offset)
        },
        MemoryRegion::Cartridge => mapper.read_byte(MapperSource::CPU, offset),
        MemoryRegion::OpenBus => 0,
    }
}

/// Writes `value` to `addr` on the devices of the bus.
pub fn bus_write_byte<M: Mapper>(ram: &mut RAM, ppu: &mut PPU, mapper: &mut M, addr: u16, value: u8)
    requires
        bus_writable::<M>(BusState { ram: old(ram).memory@, ppu: old(ppu)@, mapper: old(mapper).state() }, addr),
    ensures
        (BusState { ram: final(ram).memory@, ppu: final(ppu)@, mapper: final(mapper).state() })
            == bus_after_write::<M>(BusState { ram: old(ram).memory@, ppu: old(ppu)@, mapper: old(mapper).state() }, addr, value),
{
    let (region, offset) = map_address(addr);
    match region {
        MemoryRegion::Ram => ram.write_byte(offset, value),
        MemoryRegion::Cartridge => mapper.write_byte(MapperSource::CPU, offset, value),
        MemoryRegion::PPU => ppu.write_byte(mapper, offset, value),
        _ => {},
    }
}

impl<'a, M: Mapper> MemoryBus for BusView<'a, M> {
    type State = BusState<M::State>;

    open spec fn state(&self) -> BusState<M::State> {
        BusState { ram: self.ram.memory@, ppu: self.ppu@, mapper: self.mapper.state() }
    }

    open spec fn readable(s: BusState<M::State>, addr: u16) -> bool {
        bus_readable::<M>(s, addr)
    }

    open spec fn writable(s: BusState<M::State>, addr: u16) -> bool {
        bus_writable::<M>(s, addr)
    }

    open spec fn read_value(s: BusState<M::State>, addr: u16) -> u8 {
        bus_read_value::<M>(s, addr)
    }

    open spec fn after_read(s: BusState<M::State>, addr: u16) -> BusState<M::State> {
        bus_after_read::<M>(s, addr)
    }

    open spec fn after_write(s: BusState<M::State>, addr: u16, value: u8) -> BusState<M::State> {
        bus_after_write::<M>(s, addr, value)
    }

    proof fn lemma_access_kept(s: BusState<M::State>, a: u16, b: u16, value: u8) {
        lemma_bus_access_kept::<M>(s, a, b, value);
    }

    fn read_byte(&mut self, addr: u16) -> (r: u8) {
        let r = bus_read_byte(self.ram, self.ppu, self.mapper, addr);
        proof {
            assert forall|b: u16| #[trigger] Self::readable(self.state(), b) == Self::readable(old(self).state(), b) by {
                lemma_bus_access_kept::<M>(old(self).state(), addr, b, 0);
            }
            assert forall|b: u16| #[trigger] Self::writable(self.state(), b) == Self::writable(old(self).state(), b) by {
                lemma_bus_access_kept::<M>(old(self).state(), addr, b, 0);
            }
        }
        r
    }

    fn write_byte(&mut self, addr: u16, value: u8) {
        bus_write_byte(self.ram, self.ppu, self.mapper, addr, value);
        proof {
            assert forall|b: u16| #[trigger] Self::readable(self.state(), b) == Self::readable(old(self).state(), b) by {
                lemma_bus_access_kept::<M>(old(self).state(), addr, b, value);
            }
            assert forall|b: u16| #[trigger] Self::writable(self.state(), b) == Self::writable(old(self).state(), b) by {
                lemma_bus_access_kept::<M>(old(self).state(), addr, b, value);
            }
        }
    }
}

impl<M: Mapper> MemoryBus for Bus<M> {
    type State = BusState<M::State>;

    open spec fn state(&self) -> BusState<M::State> {
        BusState { ram: self.ram.memory@, ppu: self.ppu@, mapper: self.mapper.state() }
    }

    open spec fn readable(s: BusState<M::State>, addr: u16) -> bool {
        bus_readable::<M>(s, addr)
    }

    open spec fn writable(s: BusState<M::State>, addr: u16) -> bool {
        bus_writable::<M>(s, addr)
    }

    open spec fn read_value(s: BusState<M::State>, addr: u16) -> u8 {
        bus_read_value::<M>(s, addr)
    }

    open spec fn after_read(s: BusState<M::State>, addr: u16) -> BusState<M::State> {
        bus_after_read::<M>(s, addr)
    }

    open spec fn after_write(s: BusState<M::State>, addr: u16, value: u8) -> BusState<M::State> {
        bus_after_write::<M>(s, addr, value)
    }

    proof fn lemma_access_kept(s: BusState<M::State>, a: u16, b: u16, value: u8) {
        lemma_bus_access_kept::<M>(s, a, b, value);
    }

    fn read_byte(&mut self, addr: u16) -> (r: u8) {
        let r = bus_read_byte(&mut self.ram, &mut self.ppu, &mut self.mapper, addr);
        proof {
            assert forall|b: u16| #[trigger] Self::readable(self.state(), b) == Self::readable(old(self).state(), b) by {
                lemma_bus_access_kept::<M>(old(self).state(), addr, b, 0);
            }
            assert forall|b: u16| #[trigger] Self::writable(self.state(), b) == Self::writable(old(self).state(), b) by {
                lemma_bus_access_kept::<M>(old(self).state(), addr, b, 0);
            }
        }
        r
    }

    fn write_byte(&mut self, addr: u16, value: u8) {
        bus_write_byte(&mut self.ram, &mut self.ppu, &mut self.mapper, addr, value);
        proof {
            assert forall|b: u16| #[trigger] Self::readable(self.state(), b) == Self::readable(old(self).state(), b) by {
                lemma_bus_access_kept::<M>(old(self).state(), addr, b, value);
            }
            assert forall|b: u16| #[trigger] Self::writable(self.state(), b) == Self::writable(old(self).state(), b) by {
                lemma_bus_access_kept::<M>(old(self).state(), addr, b, value);
            }
        }
    }
}

} // verus!

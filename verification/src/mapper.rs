use crate::ines::{opt_bytes, INES};
use vstd::prelude::*;

verus! {

#[derive(Debug, Clone, Copy, PartialEq, Eq, Structural)]
pub enum MapperSource {
    CPU,
    PPU,
}

/// A mapper maps memory from the CPU/PPU to RAM/ROM in the cartridge.
///
/// A mapper is described by an abstract `State`: what a read returns is a function of the
/// state, and a write yields a new state. Which reads are defined never changes with
/// writes.
pub trait Mapper: Sized {
    type State;

    spec fn state(&self) -> Self::State;

    /// A read of `addr` by `source` is defined on this state.
    spec fn read_defined(s: Self::State, source: MapperSource, addr: u16) -> bool;

    /// The value that a read of `addr` by `source` returns.
    spec fn read_value(s: Self::State, source: MapperSource, addr: u16) -> u8;

    /// The state after `source` writes `value` to `addr`.
    spec fn after_write(s: Self::State, source: MapperSource, addr: u16, value: u8) -> Self::State;

    proof fn lemma_read_defined_kept(
        s: Self::State,
        source: MapperSource,
        addr: u16,
        value: u8,
        source2: MapperSource,
        addr2: u16,
    )
        ensures
            Self::read_defined(Self::after_write(s, source, addr, value), source2, addr2)
                == Self::read_defined(s, source2, addr2),
    ;

    fn read_byte(&self, source: MapperSource, addr: u16) -> (r: u8)
        requires
            Self::read_defined(self.state(), source, addr),
        ensures
            r == Self::read_value(self.state(), source, addr),
    ;

    fn write_byte(&mut self, source: MapperSource, addr: u16, value: u8)
        ensures
            final(self).state() == Self::after_write(old(self).state(), source, addr, value),
    ;
}

/// The writable decimal digits of a number, most significant first.
pub open spec fn decimal(n: nat) -> Seq<char>
    decreases n,
{
    if n < 10 {
        seq![(48 + n) as char]
    } else {
        decimal(n / 10).push((48 + n % 10) as char)
    }
}

/// `format!("unsupported mapper: {}", n)`: the message of a mapper that is not supported,
/// with the number in decimal.
#[verifier::external_body]
fn unsupported_mapper_message(n: u8) -> (r: String)
    ensures
        r@ == "unsupported mapper: "@ + decimal(n as nat),
{
    format!("unsupported mapper: {}", n)
}

/// Creates a mapper based on a ROM file (format INES)
pub fn create_mapper(ines: INES) -> (r: Result<Mapper0, String>)
    ensures
        ines.header.mapper_number == 0 ==> (r matches Ok(m) && m.state() == cartridge_state(
            ines,
        )),
        ines.header.mapper_number != 0 ==> (r matches Err(msg) && msg@ == "unsupported mapper: "@
            + decimal(ines.header.mapper_number as nat)),
{
    match ines.header.mapper_number {
        0 => Ok(Mapper0 { ines }),
        n => Err(unsupported_mapper_message(n)),
    }
}

/// What the mapper reads and writes: the ROMs and RAM of the cartridge.
pub struct CartridgeState {
    pub prg_rom: Seq<u8>,
    pub chr_rom: Option<Seq<u8>>,
    pub prg_ram: Option<Seq<u8>>,
}

pub open spec fn cartridge_state(ines: INES) -> CartridgeState {
    CartridgeState {
        prg_rom: ines.prg_rom@,
        chr_rom: opt_bytes(ines.chr_rom),
        prg_ram: opt_bytes(ines.prg_ram),
    }
}

/// The size of the PRG RAM; none counts as empty.
pub open spec fn prg_ram_len(s: CartridgeState) -> int {
    match s.prg_ram {
        Some(r) => r.len() as int,
        None => 0,
    }
}

/// The byte at `i`, or 0 past the end.
pub open spec fn byte_or_zero(s: Seq<u8>, i: int) -> u8 {
    if 0 <= i < s.len() {
        s[i]
    } else {
        0
    }
}

/// The PRG ROM offset that the CPU window $C000-$FFFF starts at: the last 16 KiB of a
/// 32 KiB ROM (NROM-256), or a mirror of the first 16 KiB (NROM-128).
pub open spec fn upper_bank_offset(s: CartridgeState) -> int {
    if s.prg_rom.len() > 0x4000 {
        0x4000
    } else {
        0
    }
}

/// Mapper 0 (NROM), see: https://www.nesdev.org/wiki/INES_Mapper_000
pub struct Mapper0 {
    pub ines: INES,
}

impl Mapper0 {
    /// The CHR ROM, if the cartridge has one.
    pub fn chr_rom(&self) -> (r: Option<&[u8]>)
        ensures
            match r {
                Some(c) => self.state().chr_rom == Some(c@),
                None => self.state().chr_rom is None,
            },
    {
        match &self.ines.chr_rom {
            Some(c) => Some(c.as_slice()),
            None => None,
        }
    }
}

impl Mapper for Mapper0 {
    type State = CartridgeState;

    open spec fn state(&self) -> CartridgeState {
        cartridge_state(self.ines)
    }

    /// Reading the PRG RAM window is not defined when the PRG RAM is present but empty.
    open spec fn read_defined(s: CartridgeState, source: MapperSource, addr: u16) -> bool {
        (source is CPU && 0x6000 <= addr <= 0x7FFF && s.prg_ram is Some) ==> prg_ram_len(s) > 0
    }

    open spec fn read_value(s: CartridgeState, source: MapperSource, addr: u16) -> u8 {
        match source {
            // PPU $0000-$1FFF: 8 KiB CHR-ROM.
            MapperSource::PPU => match s.chr_rom {
                Some(c) => byte_or_zero(c, addr as int),
                None => 0,
            },
            MapperSource::CPU => {
                if 0x6000 <= addr <= 0x7FFF {
                    // PRG RAM, repeated to fill the 8 KiB window
                    match s.prg_ram {
                        Some(r) => r[(addr - 0x6000) % r.len() as int],
                        None => 0,
                    }
                } else if 0x8000 <= addr <= 0xBFFF {
                    byte_or_zero(s.prg_rom, addr - 0x8000)
                } else if addr >= 0xC000 {
                    byte_or_zero(s.prg_rom, addr - 0xC000 + upper_bank_offset(s))
                } else {
                    0
                }
            },
        }
    }

    /// Only the PRG RAM can be written; writes past its end are dropped.
    open spec fn after_write(s: CartridgeState, source: MapperSource, addr: u16, value: u8) -> CartridgeState {
        if source is CPU && 0x6000 <= addr <= 0x7FFF && s.prg_ram is Some && addr - 0x6000
            < prg_ram_len(s) {
            CartridgeState {
                prg_ram: Some(s.prg_ram->Some_0.update(addr - 0x6000, value)),
                ..s
            }
        } else {
            s
        }
    }

    proof fn lemma_read_defined_kept(
        s: CartridgeState,
        source: MapperSource,
        addr: u16,
        value: u8,
        source2: MapperSource,
        addr2: u16,
    ) {
    }

    fn read_byte(&self, source: MapperSource, addr: u16) -> (r: u8) {
        let address = addr as usize;
        match source {
            // PPU $0000-$1FFF: 8 KiB CHR-ROM.
            MapperSource::PPU => match &self.ines.chr_rom {
                Some(chr) => {
                    if address < chr.len() {
                        chr[address]
                    } else {
                        0
                    }
                },
                None => 0,
            },
            MapperSource::CPU => {
                // CPU $6000-$7FFF: Unbanked PRG-RAM, mirrored as necessary to fill entire 8 KiB window, write protectable with an external switch. (Family BASIC only)
                if addr >= 0x6000 && addr <= 0x7FFF {
                    match &self.ines.prg_ram {
                        Some(ram) => {
                            let ram_size = ram.len();
                            let addr_offset = address - 0x6000;
                            ram[addr_offset % ram_size]
                        },
                        None => 0,
                    }
                }
                // CPU $8000-$BFFF: First 16 KiB of PRG-ROM.
                 else if addr >= 0x8000 && addr <= 0xBFFF {
                    if address - 0x8000 < self.ines.prg_rom.len() {
                        self.ines.prg_rom[address - 0x8000]
                    } else {
                        0
                    }
                }
                // CPU $C000-$FFFF: Last 16 KiB of PRG-ROM (NROM-256) or mirror of $8000-$BFFF (NROM-128).
                 else if addr >= 0xC000 {
                    // If the ROM is bigger than 16KiB we read from there otherwise we mirror the first 16KiB
                    let rom_offset = if self.ines.prg_rom.len() > 0x4000 {
                        0x4000
                    } else {
                        0
                    };
                    let index = address - 0xC000 + rom_offset;
                    if index < self.ines.prg_rom.len() {
                        self.ines.prg_rom[index]
                    } else {
                        0
                    }
                } else {
                    0
                }
            },
        }
    }

    fn write_byte(&mut self, source: MapperSource, addr: u16, value: u8) {
        let address = addr as usize;
        match source {
            MapperSource::CPU => {
                // CPU $6000-$7FFF: PRG-RAM (writable)
                if addr >= 0x6000 && addr <= 0x7FFF {
                    if let Some(ram) = self.ines.prg_ram.as_mut() {
                        let offset = address - 0x6000;
                        if offset < ram.len() {
                            ram.set(offset, value);
                        }
                    }
                }
                // $8000-$FFFF: PRG-ROM, writes ignored on NROM

            },
            MapperSource::PPU => {
                // CHR-ROM, writes ignored on NROM
            },
        }
    }
}

/// A cartridge slot, empty or holding a cartridge. Reads of an empty slot are not defined,
/// and writes to it are dropped.
impl<M: Mapper> Mapper for Option<M> {
    type State = Option<M::State>;

    open spec fn state(&self) -> Option<M::State> {
        match self {
            Some(m) => Some(m.state()),
            None => None,
        }
    }

    open spec fn read_defined(s: Option<M::State>, source: MapperSource, addr: u16) -> bool {
        match s {
            Some(t) => M::read_defined(t, source, addr),
            None => false,
        }
    }

    open spec fn read_value(s: Option<M::State>, source: MapperSource, addr: u16) -> u8 {
        match s {
            Some(t) => M::read_value(t, source, addr),
            None => 0,
        }
    }

    open spec fn after_write(s: Option<M::State>, source: MapperSource, addr: u16, value: u8) -> Option<M::State> {
        match s {
            Some(t) => Some(M::after_write(t, source, addr, value)),
            None => None,
        }
    }

    proof fn lemma_read_defined_kept(
        s: Option<M::State>,
        source: MapperSource,
        addr: u16,
        value: u8,
        source2: MapperSource,
        addr2: u16,
    ) {
        if let Some(t) = s {
            M::lemma_read_defined_kept(t, source, addr, value, source2, addr2);
        }
    }

    fn read_byte(&self, source: MapperSource, addr: u16) -> (r: u8) {
        match self {
            Some(m) => m.read_byte(source, addr),
            None => 0,
        }
    }

    fn write_byte(&mut self, source: MapperSource, addr: u16, value: u8) {
        match self {
            Some(m) => m.write_byte(source, addr, value),
            None => {},
        }
    }
}

/// On a 16 KiB PRG ROM (NROM-128), the CPU window $C000-$FFFF mirrors $8000-$BFFF.
pub proof fn lemma_nrom128_mirror(s: CartridgeState, k: u16)
    requires
        s.prg_rom.len() <= 0x4000,
        k < 0x4000,
    ensures
        Mapper0::read_value(s, MapperSource::CPU, (0xC000 + k) as u16) == Mapper0::read_value(
            s,
            MapperSource::CPU,
            (0x8000 + k) as u16,
        ),
{
}

/// What the CPU writes to PRG RAM is what it reads back there, and no other read changes.
pub proof fn lemma_prg_ram_read_after_write(s: CartridgeState, a: u16, b: u16, value: u8)
    requires
        0x6000 <= a <= 0x7FFF,
        (a - 0x6000) < prg_ram_len(s),
        Mapper0::read_defined(s, MapperSource::CPU, b),
    ensures
        Mapper0::read_value(Mapper0::after_write(s, MapperSource::CPU, a, value), MapperSource::CPU, b)
            == if 0x6000 <= b <= 0x7FFF && (b - 0x6000) % prg_ram_len(s) == a - 0x6000 {
            value
        } else {
            Mapper0::read_value(s, MapperSource::CPU, b)
        },
{
}

} // verus!

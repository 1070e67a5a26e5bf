use crate::cpu::semantics::{spec_step, step_ok};
use crate::cpu::{StepResult, CPU};
use crate::ines::INES;
use crate::mapper::{cartridge_state, create_mapper, decimal, CartridgeState, Mapper, Mapper0, MapperSource};
use crate::memory::{Bus, BusState, BusView, MemoryBus, RAM};
use crate::ppu::PPU;
use vstd::prelude::*;

verus! {

/// The console: the CPU, and the bus with the internal RAM, the PPU and the cartridge slot.
pub struct Emulator {
    pub cpu: CPU,
    pub bus: Bus<Option<Mapper0>>,
}

/// The bus that the CPU of an emulator sees.
pub type EmulatorBus = Bus<Option<Mapper0>>;

/// What can be read on the bus of the console tells whether the RAM holds its 2 KiB, the PPU is
/// well formed and a cartridge is loaded.
proof fn lemma_accessible(s: BusState<Option<CartridgeState>>)
    ensures
        EmulatorBus::readable(s, 0x07FF) <==> s.ram.len() >= 2048,
        EmulatorBus::readable(s, 0x8000) <==> s.mapper is Some,
        s.mapper is Some ==> (EmulatorBus::readable(s, 0x2000) <==> s.ppu.wf()),
        s.mapper is Some ==> EmulatorBus::readable(s, 0xFFFC) && EmulatorBus::readable(s, 0xFFFD),
{
    if let Some(t) = s.mapper {
        assert forall|a: u16| #[trigger] Option::<Mapper0>::read_defined(s.mapper, MapperSource::PPU, a) by {}
    }
}

/// The CPU cycles of one NTSC frame.
pub const CYCLES_PER_FRAME: u32 = 29781;

/// One step of the console's CPU.
#[verifier::opaque]
pub open spec fn console_step(cpu: CPU, s: BusState<Option<CartridgeState>>) -> (
    CPU,
    BusState<Option<CartridgeState>>,
    StepResult,
) {
    spec_step::<EmulatorBus>(cpu, s)
}

/// Running a frame from `spent` cycles on: instructions are executed until their cycles
/// reach a frame's, or until a byte that is no opcode is met, whose value is then given.
pub open spec fn frame_run(cpu: CPU, s: BusState<Option<CartridgeState>>, spent: nat) -> (
    CPU,
    BusState<Option<CartridgeState>>,
    Option<u8>,
)
    decreases CYCLES_PER_FRAME + 256 - spent,
{
    if spent >= CYCLES_PER_FRAME {
        (cpu, s, None)
    } else {
        let (c1, s1, r) = console_step(cpu, s);
        if r.opcode is None {
            (c1, s1, Some(r.opcode_byte))
        } else if r.cycles == 0 {
            (c1, s1, None)
        } else {
            frame_run(c1, s1, (spent + r.cycles) as nat)
        }
    }
}

/// Every instruction that running a frame from `spent` cycles on executes is defined.
pub open spec fn frame_ok(cpu: CPU, s: BusState<Option<CartridgeState>>, spent: nat) -> bool
    decreases CYCLES_PER_FRAME + 256 - spent,
{
    if spent >= CYCLES_PER_FRAME {
        true
    } else {
        let (c1, s1, r) = console_step(cpu, s);
        &&& step_ok::<EmulatorBus>(cpu, s)
        &&& (r.opcode is Some && r.cycles > 0) ==> frame_ok(c1, s1, (spent + r.cycles) as nat)
    }
}

impl Emulator {
    /// The internal RAM holds at least its 2 KiB and the PPU is well formed.
    pub open spec fn wf(&self) -> bool {
        self.bus.ram.memory@.len() >= 2048 && self.bus.ppu@.wf()
    }

    /// A cartridge is loaded.
    pub open spec fn loaded(&self) -> bool {
        self.bus.mapper is Some
    }

    /// The state of the bus: internal RAM, PPU and cartridge.
    pub open spec fn bus_state(&self) -> BusState<Option<CartridgeState>> {
        self.bus.state()
    }

    /// No cartridge, RAM cleared, CPU and PPU in their power-up states.
    pub open spec fn is_initial(&self) -> bool {
        &&& self.cpu == CPU::initial()
        &&& self.bus.ram.memory@ == Seq::new(2048, |i: int| 0u8)
        &&& self.bus.ppu@ == PPU::initial()
        &&& self.bus.mapper is None
    }

    pub fn new() -> (r: Emulator)
        ensures
            r.wf(),
            r.is_initial(),
    {
        Emulator {
            cpu: CPU::default(),
            bus: Bus { ram: RAM::new(2048), ppu: PPU::default(), mapper: None },
        }
    }

    /// Inserts a cartridge: succeeds when its mapper is supported, and otherwise leaves the
    /// emulator as it was.
    pub fn load_rom(&mut self, ines: INES) -> (r: Result<(), String>)
        requires
            old(self).wf(),
        ensures
            final(self).wf(),
            final(self).cpu == old(self).cpu,
            ines.header.mapper_number == 0 ==> (r is Ok && final(self).bus_state() == (BusState {
                mapper: Some(cartridge_state(ines)),
                ..old(self).bus_state()
            })),
            ines.header.mapper_number != 0 ==> (r matches Err(msg) && msg@ == "unsupported mapper: "@
                + decimal(ines.header.mapper_number as nat) && *final(self) == *old(self)),
    {
        let mapper = create_mapper(ines)?;
        self.bus.mapper = Some(mapper);
        Ok(())
    }

    /// Loads the program counter from the reset vector of the cartridge.
    pub fn power_up(&mut self)
        requires
            old(self).wf(),
            old(self).loaded(),
        ensures
            final(self).wf(),
            final(self).loaded(),
            ({
                let s = old(self).bus_state();
                let low = EmulatorBus::read_value(s, 0xFFFC);
                let s1 = EmulatorBus::after_read(s, 0xFFFC);
                let high = EmulatorBus::read_value(s1, 0xFFFD);
                &&& final(self).cpu == (CPU { pc: (low as int + 256 * high as int) as u16, ..old(self).cpu })
                &&& final(self).bus_state() == EmulatorBus::after_read(s1, 0xFFFD)
            }),
    {
        proof {
            lemma_accessible(self.bus.state());
        }
        self.cpu.power_up(&mut self.bus);
        proof {
            lemma_accessible(self.bus.state());
        }
    }

    /// Executes one CPU instruction.
    pub fn step(&mut self) -> (r: StepResult)
        requires
            old(self).wf(),
            old(self).loaded(),
            step_ok::<EmulatorBus>(old(self).cpu, old(self).bus_state()),
        ensures
            final(self).wf(),
            final(self).loaded(),
            (final(self).cpu, final(self).bus_state(), r) == spec_step::<EmulatorBus>(
                old(self).cpu,
                old(self).bus_state(),
            ),
            r.opcode is Some ==> r.cycles >= 2,
    {
        proof {
            lemma_accessible(self.bus.state());
        }
        let r = self.cpu.step(&mut self.bus);
        proof {
            lemma_accessible(self.bus.state());
        }
        r
    }

    /// Runs the CPU for a frame's worth of cycles; stops early at a byte that is no opcode,
    /// and then gives that byte.
    pub fn step_frame(&mut self) -> (r: Option<u8>)
        requires
            old(self).wf(),
            old(self).loaded(),
            frame_ok(old(self).cpu, old(self).bus_state(), 0),
        ensures
            final(self).wf(),
            final(self).loaded(),
            (final(self).cpu, final(self).bus_state(), r) == frame_run(
                old(self).cpu,
                old(self).bus_state(),
                0,
            ),
    {
        let mut spent: u32 = 0;
        while spent < CYCLES_PER_FRAME
            invariant
                self.wf(),
                self.loaded(),
                frame_ok(self.cpu, self.bus_state(), spent as nat),
                frame_run(self.cpu, self.bus_state(), spent as nat) == frame_run(
                    old(self).cpu,
                    old(self).bus_state(),
                    0,
                ),
            decreases CYCLES_PER_FRAME + 256 - spent,
        {
            let ghost c0 = self.cpu;
            let ghost s0 = self.bus_state();
            let result = self.step();
            proof {
                reveal(console_step);
                assert(console_step(c0, s0) == (self.cpu, self.bus_state(), result));
            }
            if result.opcode.is_none() {
                return Some(result.opcode_byte);
            }
            spent = spent + result.cycles as u32;
        }
        None
    }

    pub fn set_pc(&mut self, value: u16)
        ensures
            final(self).cpu == (CPU { pc: value, ..old(self).cpu }),
            final(self).bus_state() == old(self).bus_state(),
            final(self).wf() == old(self).wf(),
            final(self).loaded() == old(self).loaded(),
    {
        self.cpu.pc = value;
    }

    /// The CPU bus, to read and write memory as the CPU does.
    pub fn get_bus_view(&mut self) -> (r: BusView<'_, Mapper0>)
        requires
            old(self).loaded(),
        ensures
            r.state() == (BusState {
                ram: old(self).bus.ram.memory@,
                ppu: old(self).bus.ppu@,
                mapper: old(self).bus.mapper->Some_0.state(),
            }),
            final(self).cpu == old(self).cpu,
            final(self).bus.ram == *final(r.ram),
            final(self).bus.ppu == *final(r.ppu),
            final(self).bus.mapper == Some(*final(r.mapper)),
    {
        let mapper = self.bus.mapper.as_mut().unwrap();
        BusView { ram: &mut self.bus.ram, mapper, ppu: &mut self.bus.ppu }
    }

    pub fn chr_rom(&self) -> (r: Option<&[u8]>)
        ensures
            match r {
                Some(c) => self.loaded() && self.bus_state().mapper->Some_0.chr_rom == Some(c@),
                None => !self.loaded() || self.bus_state().mapper->Some_0.chr_rom is None,
            },
    {
        match &self.bus.mapper {
            Some(m) => m.chr_rom(),
            None => None,
        }
    }
}

} // verus!

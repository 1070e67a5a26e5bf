# grounes

A NES emulator core whose behaviour is stated in contracts and proved with Verus.

- `src/cpu.rs`, `src/cpu/`: the 6502 CPU. `cpu/semantics.rs` gives the meaning of every
  instruction and of one CPU step over any memory bus; `CPU::step` is proved to compute
  it. `cpu/laws.rs` holds properties that span instructions (stack round trips, JSR/RTS,
  SBC as ADC of the complement).
- `src/memory.rs`: the `MemoryBus` abstraction, the internal RAM and the CPU address map.
- `src/ppu.rs`, `src/ppu/`: the picture processing unit: registers, VRAM, OAM, the
  background tile fetcher and the frame buffer, with laws on register access.
- `src/mapper.rs`: cartridge mappers (NROM).
- `src/ines.rs`: the iNES file format.
- `src/controller.rs`: the standard controller.
- `src/emulator.rs`: the console wiring the CPU to its bus.
- `app/`: the desktop front end (eframe/egui): file reading, drawing, input.

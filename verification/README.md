# nestadia

A NES emulator core written in Verus: every operation of the console carries a
contract over a mathematical model of the hardware, and Verus proves the code
against it.

## Layout

- `src/cpu/`: the 6502 (`mod.rs`), its opcode table (`opcode.rs`) and the
  disassembler (`disassembler.rs`). `Cpu::clock` is proved equal to `Cpu::spec_clock`,
  the model of one CPU cycle.
- `src/ppu/`: the picture unit, dot by dot (`mod.rs`), its registers
  (`registers.rs`), sprite state (`sprites.rs`) and the frame cadence (`timing.rs`).
  `Ppu::clock` is proved equal to `Ppu::spec_clock`.
- `src/cartridge/`: iNES parsing and the mappers (NROM, MMC1, UxROM, CNROM, MMC3,
  AxROM, GxROM).
- `src/apu/`: the pulse, triangle and noise channels with their envelopes, sweeps,
  timers and length counters.
- `src/bus.rs`: the CPU and PPU buses (RAM mirroring, controllers, OAM DMA,
  nametable mirroring).
- `src/lib.rs`: the console (`Emulator`) and the conversion of frames to RGB with
  colour emphasis.
- `src/input.rs`: keyboard keys to controller buttons.
- `src/debugger.rs`: breakpoint placement, address arguments, the disassembly window
  and the memory dump layout of the debugger.
- `src/session.rs`, `src/server.rs`: the decisions of the streaming server (ROM upload
  and controller input), the save-file path (BLAKE3), frame packing (gzip) and the
  development password check (Argon2).
- `tests/`: tests run against the compiled library.
- `app/`: a command-line front end that runs a ROM and writes the last frame as a PPM
  picture.

Laws that span several operations (mirroring, read-after-write, the JSR/RTS and
push/pop pairs, interrupt and RTI, ADC/SBC flags, PPUDATA and palette read-back, the
frame period, the upload protocol) are public proof functions next to the operations
they speak of.

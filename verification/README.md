# greenstone

A Nintendo Entertainment System emulator core written in Verus: the code is
ordinary Rust, and its behaviour is stated in `requires`/`ensures` contracts
that Verus proves.

## Layout

- `src/nes/cpu/` — the 6502 CPU. `state.rs` models the CPU as a value
  (`CpuState`) and defines each bus cycle; `opcode.rs` holds the opcode
  table; `addressing_mode.rs` finds operands; `instructions/` holds one
  spec function and one executable function per instruction, the dispatcher
  (`dispatch.rs`), and two laws over the whole table: every instruction
  changes only the status flags its mask names (`flag_mask.rs`), and each
  but CLC (which spends no cycle beyond its fetch) takes at least the
  cycles its entry gives and at most one more for an indexed mode that may
  cross a page, or two more for a branch (`timing.rs`). The exact count,
  with the cycles spent only when a page is crossed or a branch taken, is
  in each instruction's contract, and `frame.rs` states it for the
  zero-page and absolute indexed modes and the branches; it also proves
  what finding an operand, NOP, DEC, the comparisons and DCP leave as it
  was, and that the clocked and unclocked operand searches agree.
- `src/nes/bus/` — the CPU's view of memory: 2 KiB of mirrored RAM, the
  PPU register latches, the APU and I/O registers, the controllers, OAM DMA
  and the cartridge.
- `src/nes/cartridge/` — iNES headers, the memory blocks of an image, the
  pager that cuts them into banks, and the NROM, MMC1 and UxROM mappers.
- `src/nes/apu/` — the pulse, triangle and noise channels, the frame
  sequencer and the sample clock. The channels' levels are integers; the
  floating-point mixer and filters are in `app/audio.rs`.
- `src/screen.rs` — the 32x32 screen and the keys of 6502 test programs.
- `src/cli/` — the command line as plain values.
- `app/` — the program: command-line parsing with clap, SDL video, input
  and audio, and the emulation loop.
- `tests/` — the test cases, run against the compiled library.

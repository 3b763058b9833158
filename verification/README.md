# rnes

A NES emulator whose core is verified with Verus.

- `src/` is the verified library: the 6502 CPU (instruction table, addressing modes,
  every instruction), the memory map with its mirroring, the cartridge mappers (NROM,
  CNROM, 225), the iNES header reader, the PPU (registers, scrolling, sprite
  evaluation, background and sprite fetches, pixel drawing, frame timing), the sprite
  DMA, the gamepads, the console that ties them together, and the debugger's
  disassembly and commands. Each function states what it does in its contract, and the
  public proof functions state the laws that hold across calls.
- `app/` is the program: it reads the ROM file, opens the SDL window, renders frames,
  reads the keyboard, and runs the debugger prompt.
- `tests/` runs the library on concrete values.

Usage: `rnes ROM_FILE [debug]`.

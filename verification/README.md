# reznez

The verified core of REZNEZ, a cycle-accurate NES emulator, written in Verus.

- `src/` is the library. Verus proves the contract of every function in it, apart from the
  small wrappers around calls into std, itertools and roxmltree, whose contracts are trusted:
  - `cartridge`: iNES and NES 2.0 headers, ROM images, cartridge metadata and its resolution
    from several sources, and the NES 2.0 header database (read from its XML text).
  - `cpu`: addresses, status flags, instruction decoding, the execution of op codes and step
    actions on the registers, the mode state that walks through the steps, the handling of
    interrupt lines, memory with its stack, and the OAM, DMC and page DMA state machines.
  - `apu`: the frame sequencer registers, length counters, timers and the sound channels.
  - `counter`: the IRQ counters that mappers are built from.
  - `controller`: the standard joypad and the order in which it reports its buttons.
  - `splitbits`: splitting integers into the fields that a template names, and combining them.
  - `assembler`, `config`, `gui`, `memory`, `ppu`, `util`, `analysis`: the smaller parts.
- `tests/` exercises the library on concrete values.
- `app/` holds what stays outside the proofs: the command line, and reading and writing files.

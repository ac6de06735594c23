# jgenesis

Verified CPU cores and configuration types for a multi-console emulator, written in Verus.

## Layout

- `src/` — the verified library
  - `arm7tdmi` — ARM7TDMI (Game Boy Advance): registers and banked modes, exceptions, the ARM
    and Thumb instruction sets, and their disassembly
  - `sh2` — SH-2 (32X): registers, cache, DMA controller, division unit, timers, serial
    interface, instruction set, and disassembly with the memory operand of each opcode
  - `huc6280` — HuC6280 (PC Engine): flags, memory mapping, instruction execution, block
    transfers, and the rules for skipping conformance tests
  - `mos6502` — 6502 status register, registers, reset and CPU state
  - `m68000` — 68000 operand types, opcode field encodings, the bus interface, register
    transfers (MOVEQ, EXG, MOVE USP, MOVEP, MOVEM), MOVEM register lists, operand addresses of
    disassembled instructions
  - `spc700` — SPC700 (SNES audio) arithmetic, decimal adjust, shift and bit instructions
  - `*_config` — per-console configuration and input types, cheat code decoding (Genesis,
    Master System / Game Gear), NES palette files and their base64 form
  - `text` — decimal and hexadecimal text of integers
  - `bit_facts` — bit-field facts shared by the proofs
- `tests/` — tests of the library on concrete values
- `app/` — a runner for HuC6280 single-step conformance test files, with the floating-point
  parts (pixel aspect ratios, NES palette generation) and palette file I/O

## Checking

Every function in `src/` carries a `requires`/`ensures` contract that Verus proves; laws that
relate several functions are public proof functions (`lemma_*`). The calls into the `regex` and
`base64` crates, and std's `Display` for `io::Error`, go through small trusted wrappers whose
contracts are documented where they are declared.

The bus of each CPU is a trait that the emulator implements; the CPUs keep ghost records of what
they hand it, and the contracts are stated over those records:
- HuC6280 and 6502: every read, write and idle cycle, with addresses and values;
- ARM7TDMI: opcode fetches, IRQ line samples, and the data reads and writes of the load/store
  instructions (address, size and value);
- SH-2: external reads and writes (address as the bus sees it, size and value), cache line
  fills, DREQ samples, serial traffic and the RESET and interrupt level samples.

# tinyarch

TinyArch is a small, idealistic 32-bit instruction set with an emulator and an
assembler. This crate is a verified library: every function in `src/` carries a
contract that Verus proves.

- `src/machine`: the machine (RAM, three rings of registers, memory mapped
  devices), its instructions and their encoding, execution, and laws such as
  "decoding the word of an instruction gives the instruction back".
- `src/assembler`: parsing a line of assembly, the passes of assembling a program
  (comments, labels, macros, label substitution), and writers that receive the
  program.
- `src/devices`: a text output device read back synchronously.
- `src/cli.rs`, `src/wasm.rs`: what the command line accepts, and an emulator
  session for web pages.
- `app/`: the command-line program, the terminal output thread, the host's float
  unit and the WebAssembly bindings.

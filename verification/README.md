# rvemu_cli

A small RISC-V assembler and the decision logic of an emulator front end
that lets a language model propose the next instruction, written in Verus
with every function of `src/` verified against its contract.

- `src/text.rs`: Unicode whitespace, trimming, splitting, string building.
- `src/number.rs`: reading decimal and hexadecimal numerals into `i64`/`u32`.
- `src/render.rs`: hexadecimal and decimal numerals, byte dumps.
- `src/encode.rs`: the R/I/S/B/U/J instruction formats, with laws that read
  each field back.
- `src/operand.rs`: registers, immediates and `offset(register)` operands.
- `src/assembler.rs`: one line of assembly to a 32-bit word; laws for the
  pseudo-instructions and for the opcodes produced.
- `src/roundtrip.rs`: numerals and register names read back as written.
- `src/llm.rs`: the prompt built from the machine state, the reading of the
  model's reply, the instruction history.
- `src/session.rs`: input checks and the stop/retry decisions of a run.
- `app/`: the command-line program: argument parsing, file reading, the
  HTTP transport and the emulator loop.

# cpu6502

An interpreter for a 6502-style processor, verified with Verus.

- `src/isa.rs`: the instruction set, as a table from opcode to instruction and
  addressing mode, with a decoder proved equal to it.
- `src/state.rs`: the machine as a mathematical value (`CpuState`), memory words,
  the stack and operand addressing.
- `src/flags.rs`, `src/alu.rs`: the status flags and the arithmetic, shift and rotate
  operations stated over integers, with the bit-level facts that link them to the
  byte operations the interpreter performs.
- `src/semantics.rs`: what each instruction does, one step of the interpreter
  (`step_outcome`), runs to BRK, loading and reset.
- `src/cpu.rs`: the executable `CPU`, each of whose operations is proved to follow
  `src/semantics.rs`.
- `src/laws.rs`: properties of the machine as a whole (stack round trips, JSR/RTS,
  SBC as ADC of the complement, rotations, determinism of runs, loading and reset).
- `app/lib.rs`: the `wasm_bindgen` bindings for the browser.

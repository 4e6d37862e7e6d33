# vcore

A Verilog generator: a module is described in Rust, piece by piece, and then
written out as Verilog text.

- `src/ast.rs`, `src/expr.rs`, `src/ops.rs`: signals, expressions and
  statements (`if` chains, `case` blocks), and the operators that build them.
- `src/stmt.rs`: continuous assignments, `always` blocks and functions.
- `src/fsm.rs`: state machines.
- `src/axi.rs`, `src/axi_text.rs`: AXI4-Lite and AXI4 slave ports.
- `src/module.rs`: the module itself and `endmodule`, which writes it out.
- `src/render.rs`, `src/text.rs`: what text each part stands for, and the
  numerals and indentation it is made of.
- `src/laws.rs`: properties of the library as a whole.
- `app/`: printing the generated text and writing it to a file, and the
  macros `F!`, `func_args!` and `Blank!`.

Every function of `src/` is verified with Verus against its contract: the
builders state how the model of a module changes, and the writers state the
exact text they produce.

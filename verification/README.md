# wasm_typestack

A verified type-stack analysis of WebAssembly function bodies.

- `src/` is the library, verified with Verus:
  - `types`: value types, block types, signatures, operand types and their sizes;
  - `op`: the decoded operators the analysis reads;
  - `text`: reading an operator back from the text its decoder prints;
  - `module`: what the analysis reads of a module (types, functions, globals);
  - `function`: the type-stack simulation (`dispatch`) and the per-body analysis (`construct`), which reads the body with `wasmparser`;
  - `opcode`: the operand and result types of each operator (`opinfo`);
  - `laws`: properties relating the above.
- `app/` converts `wasmparser`'s module and function types into the library's.
- `tests/` runs the library on concrete values.

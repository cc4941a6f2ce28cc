# vpt

Decision logic of the `vpt` fixture helpers (`chmod`, `cp`, `stat-file`,
`touch-file`), verified with Verus.

- `src/` — the library: argument checking, octal permission-mode parsing with the
  semantics of `u32::from_str_radix(_, 8)` (with proofs of when it succeeds and that
  every mode written in octal reads back), copy planning, entry classification and
  report lines, and the error messages.
- `app/` — the `run` entry points, which perform the file-system calls the library
  plans.
- `tests/` — tests of the library on concrete inputs, including a comparison of the
  mode parser with std.

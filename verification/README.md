# rustc_codegen_gcc

The target-independent decisions of a GCC code generation backend for rustc,
written as a library whose functions carry contracts that the verifier checks.

## Layout

- `src/opt_level.rs`: the session's optimization levels, the four libgccjit
  levels, and the mapping between them, with its ordering laws.
- `src/backend.rs`: the backend type; the LTO warning at start-up; fat
  link-time optimization; the message printed when a guard drops during a panic.
- `src/initializers.rs`: the names of the per-unit global initializer
  functions, and the law that distinct units get distinct names.
- `src/target.rs`: the target triple read from the target's LLVM name with
  target-lexicon, and the CPU argument passed to the linker.
- `src/conversion.rs`: narrowing of `i128` to `u64`.
- `app/`: a small test program (atomics, narrowing) and the calls into
  libgccjit that act on the library's decisions. gccjit is built with its
  `dlopen` feature, so libgccjit is loaded at run time.
- `tests/`: tests of every public function on concrete values.

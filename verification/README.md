# binrw_codegen

The decisions and the token layout of the code that the `BinRead` and
`BinWrite` derives generate, written in Verus and proved against their
contracts.

Generated code is modelled as a flat sequence of tokens (`src/tokens.rs`) in
which groups are pairs of open/close markers and user code is carried as
opaque `proc_macro2` token streams. Each generator states, as a spec function,
the exact sequence it writes; the proofs show that the executable generators
write exactly that.

Layout:

- `src/input.rs`: the parts of a parsed derive input that the generators read.
- `src/magic.rs`: classification of magic literals and the code that reads and
  compares magic values.
- `src/grouping.rs`: grouping the variants of a unit-only enum by magic type.
- `src/read_options.rs`, `src/read_enum.rs`: reader bodies.
- `src/write_options.rs`: writer bodies.
- `src/spelling.rs`: how fixed words and punctuation are spelled, and the
  check that generated code is well bracketed.
- `src/brackets.rs`, `src/laws.rs`: properties across the generators, among
  them that generated code is well bracketed whenever the code it is built
  from is.
- `app/lib.rs`: turning generated code into the compiler's tokens. It stays
  outside the library because the representation of every stream
  `proc_macro2` builds follows a process-wide mode, and mixing
  representations panics.

Code that other generators write (struct readers, imports, byte order,
assertions, position handling) enters the functions here as arguments.

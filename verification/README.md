# deno_typescript

A host for the TypeScript compiler running in a V8 isolate, written in Verus.

- `src/` is the verified library: the operations the compiler calls on its host
  (reading modules from the local path that a file URL names, writing and
  resolving modules, recording the emit result and exit code), the JSON text of
  the replies, the bundled TypeScript declaration files, the compiler options
  and the scripts that start the compiler, the plan for turning compiled modules
  into a V8 snapshot, and the argument grammar of the snapshot macros.
- `app/` is the unverified part around it: the V8 isolates (through the `deno`
  crate), module specifier resolution (deno's, which links the prebuilt V8
  library), file and process I/O, JSON decoding of the compiler's requests, and
  the token handling of the snapshot macros.
- `tests/` exercises the library on concrete inputs.

The bundled declaration files and compiler scripts are read at run time from an
`assets` directory next to the crate.

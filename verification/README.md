# sqlite_nostd

Lightweight bindings for writing SQLite extensions, with their decisions
verified by Verus.

- `src/` is the verified library: the result codes and column datatypes of
  SQLite and their integer values, NUL-terminated strings for the C
  interface, the length and destructor arguments with which a function hands
  its result to SQLite, the decoding of what a prepared statement reports,
  and the allocation and registration requests of an extension.
- `app/` is the C side: the SQLite routines, reached through raw pointers,
  and the `Stmt`, `Context` and `DB` traits on SQLite's handles. It asks the
  library for every decision before it makes a call.
- `tests/` runs the library on concrete values.

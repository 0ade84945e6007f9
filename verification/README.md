# idalib_ts

The verified core of a TypeScript SDK for IDA Pro databases.

- `src/` is the library, verified with Verus. It holds the SDK's values (functions,
  segments, names, strings, bookmarks, cross-references, instructions, decompiled
  functions, metadata) and every decision the SDK makes about them: how a function query
  filters and pages, how a cross-reference lookup walks the library's chain, how the
  decompiler's statement tree is flattened into blocks, how numbers are printed, how
  options become an opening plan, which errors are reported and with which text, and how a
  closed database refuses further use.
- `app/` is the Node.js binding: the JavaScript classes, the calls into the IDA library
  (`idalib`), the lock around the shared database handle, and the conversions between the
  library's values and their JavaScript shapes.
- `tests/` exercises the library on concrete values.

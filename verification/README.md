# lore-vm

A view-model core over the Lore version-control engine, verified with Verus.

- `src/` is the verified library: the arguments and results of every
  operation, the conversion of the arguments into the engine's arguments
  (with paths resolved against the repository root), the rules that read an
  operation's result off the engine's event stream, the stage machine that
  recovers from a dangling staged anchor, the command-line adapter's argument
  lists and text parsers, the in-process adapter's result mappings, and the
  operation routing table.
- `app/` is the host glue: serialisable copies of the library's types, the
  asynchronous operations that call the engine and collect its events, the
  backends that run processes, and the JSON dispatch.
- `tests/` runs the library on concrete values.

# nade

The verified core of the Nade motion-graphics editor, written in Verus.

- `src/` is the library. Every function carries a contract that Verus proves:
  the split layout of editor areas (`dock`, `layout`, `geometry`, `system`,
  with the laws in `layout_laws` and `system_laws`), the operator catalogue and
  its parameters (`values`, `ops`, `operators`), change-detection hashing
  (`hashing`, `resolve`), one-step delays and other evaluation checks
  (`evaluation`), the editing session (`session`), naming of new things
  (`names`), the object and asset browsers (`browsers`), the project pane
  (`project`) and the pacing of the core loop (`core_loop`).
- `tests/` runs the library on concrete values.
- `app/` is the command-line front end: argument handling, threads and
  channels, file output, and the floating-point pixel and view arithmetic.

Layout ratios are fixed-point numbers out of 10000, pixel geometry is in
integers, and floating-point values are carried as their bit patterns.

# chopped

Asset fetching for the chopped game engine, verified with Verus.

- `src/` — the verified library: the error type and its messages (`error`,
  `text`), the web fetch as a state machine whose actions the caller performs
  (`web`), and the native lookup: the asset folder next to the executable
  first, then the manifest directory's (`native`).
- `app/` — the I/O around it: the async HTTP fetch with `gloo-net`, the disk
  read, the `thiserror` error type, the `log!` macro and the float-based
  `GameRectangle`.
- `tests/` — tests of the library on concrete values.

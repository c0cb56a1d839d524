# lark

The core of a small text editor, verified with Verus.

- `src/editor/` — documents. `loader.rs` decodes a byte stream, chunk by
  chunk, into a rope (the encoding is given or guessed from the first read);
  `document.rs` holds a document's text, encoding and file; `encoding.rs`
  and `rope.rs` are the contracts the library relies on from `encoding_rs`,
  `chardetng` and `ropey`; `utf8_facts.rs` proves the UTF-8 facts the loader
  needs.
- `src/engine/` — the window state: settings, centering the window on a
  monitor, and when the window closes.
- `src/lib.rs` — `hello_world`, which says what to launch.
- `app/` — the parts that do I/O or drive egui/winit: reading files through
  the loader, and running the window.
- `tests/` — tests of the library on concrete inputs.

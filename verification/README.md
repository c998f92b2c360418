# canvas

Form and text-input editing for terminal user interfaces, with the editing
logic, key-binding tables and validation rules proved correct by Verus.

Layout:

- `src/editor/`: the editing engine (field values, cursor, modes, undo/redo
  history, word motions), with the history laws in `laws.rs`.
- `src/textform/`: multi-field forms and the key actions they dispatch.
- `src/textinput/`: a single-line input built on the form.
- `src/keybindings/`: key strokes and their text form, the action names,
  binding tables, presets read from TOML, messages and the sequence tracker.
- `src/keymap/`: action names of the keymap layer.
- `src/validation/`: display masks, character limits, allowed values and
  validation results.
- `app/`: the terminal side (crossterm events and cursor styles) that
  converts to and from the library's own types.
- `tests/`: executable tests of the library.

Not included: the multi-line text area, the drawing widgets, the bundled
keybinding presets and the keybinding profiles built on them.

Run Verus on `src/lib.rs` to check the proofs; `cargo test` runs the tests.

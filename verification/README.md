# ui

The state, event and identity logic of a declarative UI toolkit, verified
with Verus.

- `src/` is the verified library:
  - `id`: view ids (FNV-1a of the source location), with a proof that ids
    on one line or in one column never collide.
  - `binding`: get/set bindings into the application state.
  - `keys`: the keyboard model and the table from key presses to editing
    commands.
  - `gestures` and `dispatch`: which gesture handler receives which pointer
    or key signal, and the gesture state.
  - `editor`: click counting and the caret blink of the text editor.
  - `toggle`, `button`, `dropdown`, `segment_picker`, `text_field`: widget
    state machines and when their callbacks fire.
  - `shader`: the cache of custom shader entries.
  - `image`: loading an image's pixels (decoding through the `image` crate).
  - `windows` and `redraw`: the window registry, opening windows, and the
    bookkeeping of a redraw.
- `app/` is the plain Rust around it: winit events, the event loop, the
  parley text editor and the clipboard, pointer geometry and the
  floating-point slider and scroller.
- `tests/` runs the library on concrete values.

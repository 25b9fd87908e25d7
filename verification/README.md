# mirl_minifb

The minifb backend of a windowing layer, as a Verus library.

- `src/input.rs` — keys and mouse buttons on both sides, the translations
  between them, and their round-trip laws.
- `src/errors.rs` — the window error types, the translation of minifb's
  errors, the reading of the sizes out of minifb's "buffer too small" message,
  and the laws that reading minifb's message (and its one-line form) gives
  back the sizes written into it.
- `src/window.rs` — window settings, the minifb options and creation request
  derived from them (which do not depend on `visible`), position/size/icon
  conversions, the answers of setting an icon through an `.ico` file, and the once-only
  replacement of the window procedure for custom cursors.
- `src/text.rs` — `str` operations (prefix, split, trim, `usize` parsing)
  stated over `Seq<char>` and implemented over character vectors.
- `app/` — the `Framework` window, which performs the minifb calls and converts
  between minifb's types and the library's.

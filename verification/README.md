# Thought Train

A small desktop application for capturing thoughts. Each new thought is
sorted into a category by a local sentence-embedding model and stored in a
SQLite database; the window lists thoughts by category, searches them, pins,
edits and deletes them, and manages the categories.

## Layout

- `src/` — the verified library (Verus):
  - `train.rs`: the window's state and its state machine. `ThoughtTrain::update`
    applies a user message and returns the outside work that must follow
    (store writes, categorization, reloads), specified exactly by the spec
    function `step`.
  - `categorize.rs`: the choice of a category from ranked similarities.
  - `view_model.rs`: what the window shows (which parts are visible, sidebar
    entries, rows, labels, icons, status tone) and the message each control
    sends.
  - `icon.rs`: decoding the window icon.
  - `thought.rs`: the stored thought and its construction from a row.
  - `text.rs`: Unicode trimming and decimal rendering.
  - `laws.rs`: properties proved over the state machine and the view model.
- `tests/` — tests of the library on concrete values.
- `app/` — the program: the iced window, the SQLite store (rusqlite) and the
  embedding model (candle, tokenizers, hf-hub). It performs the outside work
  that the library asks for and draws what the library decides.

## Notes

- Cargo.toml does not name `iced`, which the window in `app/` is built on
  (version 0.13 with the `tiny-skia`, `svg` and `tokio` features); it must be
  added to build the program.
- The icons are inline SVG drawings of this project; the window icon is read
  from `logo.png` in the working directory when present and decoded as PNG.
- There is no GTK front end: an unused GTK/libadwaita window module, which
  the program never compiled, was left out; the live iced window makes the
  same decisions through `ThoughtTrain::update`.

# zwk

The logic of a passive which-key hint overlay for Zellij, verified with Verus.

- `src/` is the library. `model` holds what the overlay reads of Zellij
  (modes, directions, actions); `labels` gives each action its hint;
  `order` sorts the rows by key, stably; `rows` builds the rows and column
  widths; `layout` sizes the floating pane; `render` draws the overlay; and
  `plugin` keeps the plugin's state and turns each Zellij event into what
  Zellij is to do. `text` holds the character-level helpers.
- `app/main.rs` is the Zellij plugin: it converts Zellij's values into the
  library's, performs the requests the library returns, and prints the
  screen it draws.
- `tests/` runs the library on concrete values.

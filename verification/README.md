# andiskaz

Utilities for applications with a terminal user interface, verified with Verus.

- `src/` is the verified library: colors and their brightness, color
  transformers and updaters, coordinates, styles, strings of grapheme
  clusters, the double screen buffer (styled text with line breaking and
  alignment, render planning), tile updaters, the event channel, the
  reactor's decisions on resizes, and the selection logic of menus, input
  dialogs and information dialogs.
- `app/` holds what talks to the terminal: standard output, the renderer and
  the event reactor (through crossterm and tokio), the clipboard, the
  terminal handle, and the selection loops that draw the dialogs.
- `tests/` runs the library on concrete values.

Grapheme clusters are split by `unicode-segmentation`; the library names the
split `grapheme_clusters` and states what it relies on of it: the clusters
are nonempty and, joined back, give the string.

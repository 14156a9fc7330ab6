# glyph_edit

The editing state behind a glyph editor's view, verified with Verus, and the GTK
widget around it.

`src/` is the verified library:

- `glyphs`: glyphs, contours, curves and points. Coordinates and angles are bit
  patterns of double-precision numbers; nothing computes with them.
- `guidelines`: guidelines as objects, and the list of those that a glyph has.
- `range_query`: where the points of a glyph lie, by index.
- `selection`: selected points and the identifiers that count as selected.
- `action`, `state`, `history`: the changes of an editing session, with their
  stamps, and how they are made, redone and undone.
- `toolbox`: the tools of an editor, by type.
- `property`, `events`, `view`: the properties of the view, what keys and pointer
  events bring about, and the messages on the status bar.
- `laws`, `view_laws`: what holds across changes and calls.

`app/` holds what needs a display, an event loop or floating-point arithmetic.
`tests/` runs the library.

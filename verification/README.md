# lastui

A terminal client for the Last.fm web API: a dashboard of the user's week,
their recent tracks, a track search and a settings form, driven by a command
palette.

- `src/` is the library, verified with Verus: the request addresses
  (`commands`), the reading of the JSON answers (`json`, `commands`), the
  key-driven state machine (`app`), the palette's fuzzy matching (`palette`),
  the text it draws (`view`), the pop-up placement (`layout`), the cover
  art's decoding and cell layout (`cover`) and colour arithmetic (`colors`),
  number text (`text`) and properties across calls (`laws`).
- `app/` is the program around it: the terminal, the HTTP requests, the
  settings file, and the single-precision steps of drawing the cover (its
  height and each cell's character).
- `tests/` exercises the library on concrete values.

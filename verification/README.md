# rusty_puzzles

A desktop front end for a collection of logic puzzles whose game logic is a C
"midend". The verified library (`src/`) holds the front end's own decisions;
`app/` holds the window, the menus, the C interface and the floating-point
painting.

- `timer` — the animation timer the midend switches on and off, and when a
  step is due.
- `surface` — raqote's draw target as the library sees it: its pixels, its
  size and the clip rectangles in force.
- `drawing` — the surface the midend draws on, its palette and status text,
  clipping, and blitters that save and restore rectangles.
- `layout` — text alignment, polygon outlines, fills, and how the window's
  size relates to the puzzle's.
- `input`, `window` — window events tracked between calls and turned into the
  midend's key codes and positions.
- `frame` — the drawing's pixels in the byte order of the window's frame.
- `menu`, `logging` — check marks of the preset menu, and error reports.

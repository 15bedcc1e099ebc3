# Pi Constellation Mapper

A sky viewer for a Raspberry Pi: it draws the bright stars overhead for a
place and time, and lets the user look around, zoom and pick a star.

- `src/` is the verified library: the decisions the viewer makes each frame.
  - `controls`: keyboard toggles (fullscreen, horizon) and camera commands.
  - `pointer`: mouse and touch gestures (drag, pinch, wheel, tap, click).
  - `selection`: which star a tap picks, and where the picked star is drawn.
  - `polyline`: which neighbouring horizon samples are joined by a line.
- `app/` is the program around it: the window, input and drawing (through
  `macroquad`), the star catalog, and the astronomy and projection
  arithmetic, which works in floating point.
- `tests/` runs the library on concrete frames.

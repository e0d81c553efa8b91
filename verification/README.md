# car_simulation

A small top-down driving simulator (parallel parking, reverse parking into a
bay, right-angle turn) whose integer logic is verified with Verus.

- `src/steering.rs` — the steering wheel: notches between two locks, which way
  the car turns, and laws on steering (lock, undo, saturation).
- `src/controls.rs` — reading the input of a frame: which menu button holds
  the pointer first and which key drives the car.
- `src/simulation.rs` — the simulator's state besides geometry (the scene on
  screen and the steering wheel) and what one frame does to it.
- `src/logo.rs` — parsing the logo's SVG (`usvg`) and rendering it (`resvg`,
  `tiny-skia`) into pixels.
- `src/palette.rs` — premultiplied colours of the scenes, through `raqote`.
- `src/pixels.rs` — repacking a rendered RGBA buffer into `0xAARRGGBB` pixels.
- `app/` — the window (`minifb`), drawing (`raqote`), reading the logo file
  and all floating-point geometry.

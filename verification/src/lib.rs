//! Driving logic of a small car-parking simulator: the steering wheel, the
//! scene on screen and what each frame of the main loop does to them, the
//! colours of the scenes, and rendering the car's logo into pixels.
mod controls;
mod logo;
mod palette;
mod pixels;
mod simulation;
mod steering;

pub use controls::{drive_command, drive_of, first_hit, first_hit_spec, Drive, Keys};
pub use logo::{parse_svg, pixmap_data, raster_fits, render_rgba, svg_parses};
pub use palette::{premultiplied, premultiplied_channel, Color};
pub use pixels::{argb_pixels, argb_word, rgba_to_argb};
pub use simulation::{FrameOutcome, Motion, Scene, Simulation, MENU_LEN};
pub use steering::{Steering, Turn, TURNING_COUNT};

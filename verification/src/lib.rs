//! Verified core of a desktop front end for a collection of logic puzzles.
//!
//! The puzzles themselves live in a C "midend"; this library holds the
//! decisions the front end makes around it: the animation timer, the
//! mapping of window input onto midend key codes, the geometry of the
//! drawing surface and its blitters, and the conversion of the rendered
//! frame into the byte order the window expects.

pub mod timer;
pub mod surface;
pub mod drawing;
pub mod layout;
pub mod input;
pub mod window;
pub mod frame;
pub mod logging;
pub mod menu;

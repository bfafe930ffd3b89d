//! Animation engine for a strip of 32 addressable LED "blades".
//!
//! The library owns the pure core of the lamp: the temperature model that
//! packs a hue and an intensity into one byte, three animated effects
//! (spark fire, fire, spiral), the manager that rotates among them on a
//! fixed schedule, and the frame buffer with its blink overlay that decides
//! when a frame is worth transmitting.
//!
//! Time enters every function as a plain millisecond tick count from a
//! monotonic wrapping counter; the hardware clock, the serial strip driver
//! and the rest of the board live outside the library.

pub mod rgb;
pub mod ticks;
pub mod rand;
pub mod pallet;
pub mod light_ports;
pub mod spark_fire;
pub mod fire;
pub mod spiral;
pub mod effects;

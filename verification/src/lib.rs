//! A verified model of an analog clock face and of the loop that presents it.
//!
//! The crate decides *what* is drawn and *when*: the angles of the three
//! hands, the twelve tick marks, the digital label, the order of the drawing
//! commands, and how a presentation loop reacts to window events. Rasterising
//! the commands and talking to the window system is left to the caller.
//!
//! All lengths are exact integers counted in hundredths of a logical unit and
//! all angles are exact integers counted in half-degrees, so every contract
//! is stated without rounding.

pub mod angle;
pub mod dial;
pub mod events;
pub mod frame;
pub mod presentation;
pub mod reading;
pub mod scene;

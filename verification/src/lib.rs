//! The chaos game on a terminal screen: a point hops halfway toward a
//! randomly chosen corner of a triangle, again and again, and the cells it
//! visits trace out a Sierpinski triangle.
//!
//! The crate holds the rules of the game and of the drawing session, stated
//! with contracts and proved: the screen geometry, the point generator, the
//! palette, and the state machine that decides which terminal command comes
//! next. A driver performs the commands and reports what happened.

pub mod config;
pub mod generator;
pub mod geometry;
pub mod palette;
pub mod random;
pub mod renderer;

pub use config::Config;
pub use generator::PointGenerator;
pub use geometry::{Point, ScreenDimension, Triangle};
pub use palette::Color;
pub use random::Draws;
pub use renderer::{Action, Event, Key, Phase, RenderError, Renderer};

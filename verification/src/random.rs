//! The random source.
//!
//! The game needs four kinds of random value: two coordinates to place the
//! first point, a corner to hop toward, and a colour to paint with. Every
//! rule of the crate is written as a function of such values, so that it can
//! be run with chosen ones; only the two functions at the end of this file
//! reach for the thread's random number generator.

use vstd::prelude::*;

verus! {

/// One round of values from a random source. A step of the game reads the
/// fields it needs and ignores the others.
#[derive(Clone, Copy, Debug, PartialEq, Eq)]
pub struct Draws {
    /// Places the first point along the x axis.
    pub x: u16,
    /// Places the first point along the y axis.
    pub y: u16,
    /// Selects the corner to hop toward.
    pub vertex: usize,
    /// Selects the colour of the plotted cell.
    pub color: usize,
}

impl Draws {
    pub fn new(x: u16, y: u16, vertex: usize, color: usize) -> (draws: Draws)
        ensures
            draws.x == x,
            draws.y == y,
            draws.vertex == vertex,
            draws.color == color,
    {
        Draws { x, y, vertex, color }
    }
}

/// Calls `rand::random::<u16>()`, which samples the thread-local generator.
///
/// Trusted, and nothing is claimed of the value: any `u16` may come back, and
/// two calls need not agree. The call panics only if the operating system
/// refuses to seed the generator.
#[verifier::external_body]
pub(crate) fn random_u16() -> (value: u16) {
    rand::random::<u16>()
}

/// Calls `rand::random::<usize>()`, which samples the thread-local generator.
///
/// Trusted, and nothing is claimed of the value: any `usize` may come back,
/// and two calls need not agree. The call panics only if the operating system
/// refuses to seed the generator.
#[verifier::external_body]
pub(crate) fn random_usize() -> (value: usize) {
    rand::random::<usize>()
}

} // verus!

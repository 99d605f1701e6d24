//! The settings of one drawing session.

use vstd::prelude::*;
use crate::geometry::ScreenDimension;

verus! {

/// What a drawing session is run with. The values are fixed for the whole
/// session.
#[derive(Clone, Copy, Debug, PartialEq, Eq)]
pub struct Config {
    /// The size of the terminal screen.
    pub screen_dim: ScreenDimension,
    /// How many times the point hops after it has been placed.
    pub max_iterations: u32,
    /// The pause between two plotted points, in microseconds.
    pub refresh_rate_usec: u64,
}

impl Config {
    pub fn new(screen_dim: ScreenDimension, max_iterations: u32, refresh_rate_usec: u64) -> (config:
        Config)
        ensures
            config.screen_dim == screen_dim,
            config.max_iterations == max_iterations,
            config.refresh_rate_usec == refresh_rate_usec,
    {
        Config { screen_dim, max_iterations, refresh_rate_usec }
    }
}

} // verus!

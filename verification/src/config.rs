//! Settings of the surrounding driver: instruction clock and window scale.

use vstd::prelude::*;

verus! {

/// Driver settings for a running machine.
#[derive(Copy, Clone)]
pub struct Config {
    /// Upper bound on the number of instruction cycles run per second.
    pub clock_hz: u32,
    /// How many screen pixels one framebuffer pixel covers in each direction.
    pub screen_magnifier: u32,
}

impl Config {
    /// Bundles a clock rate and a magnification factor.
    pub fn new(clock_hz: u32, screen_magnifier: u32) -> (config: Config)
        ensures
            config.clock_hz == clock_hz,
            config.screen_magnifier == screen_magnifier,
    {
        Config { clock_hz, screen_magnifier }
    }

    /// Width and height of the window that shows the 64x32 framebuffer, in
    /// screen pixels.
    pub fn window_size(&self) -> (size: (u32, u32))
        requires
            64 * self.screen_magnifier <= u32::MAX,
        ensures
            size.0 == 64 * self.screen_magnifier,
            size.1 == 32 * self.screen_magnifier,
    {
        (64 * self.screen_magnifier, 32 * self.screen_magnifier)
    }

    /// The pause between two instruction cycles, in whole milliseconds.
    pub fn cycle_millis(&self) -> (millis: u64)
        requires
            self.clock_hz > 0,
        ensures
            millis == 1000int / (self.clock_hz as int),
    {
        (1000 / self.clock_hz) as u64
    }
}

} // verus!

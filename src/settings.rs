use vstd::prelude::*;
use crate::pane::{Pane, PickTarget, sample_pane_after};

verus! {

/// The explorer's shared parameters that are not coordinates: the settings
/// panel edits them, clicks change the sampled pane.
#[derive(Clone, Copy, Debug, PartialEq, Eq, Structural)]
pub struct Settings {
    /// Whether clicks set the orbit start instead of the picked point.
    pub sample_mode: bool,
    /// The pane whose camera frames the orbit path.
    pub sample_pane: Pane,
    /// How many iterates the orbit path has.
    pub path_iterations: usize,
    /// The escape-time iteration bound handed to the shader.
    pub iterations: i32,
}

/// Number of iterates of the orbit path at start-up.
pub const DEFAULT_PATH_ITERATIONS: usize = 30;

/// Escape-time iteration bound at start-up.
pub const DEFAULT_ITERATIONS: i32 = 200;

impl Settings {
    /// The start-up settings: sample mode off, orbits framed by the Mandelbrot
    /// pane.
    pub fn new() -> (r: Settings)
        ensures
            !r.sample_mode,
            r.sample_pane == Pane::Mandelbrot,
            r.path_iterations == DEFAULT_PATH_ITERATIONS,
            r.iterations == DEFAULT_ITERATIONS,
    {
        Settings {
            sample_mode: false,
            sample_pane: Pane::Mandelbrot,
            path_iterations: DEFAULT_PATH_ITERATIONS,
            iterations: DEFAULT_ITERATIONS,
        }
    }

    /// Records a press: a new orbit start moves the sampling to its pane;
    /// nothing else changes.
    pub fn apply_pick(&mut self, target: PickTarget)
        ensures
            final(self).sample_pane == match target {
                PickTarget::SampleStart(p) => p,
                _ => old(self).sample_pane,
            },
            final(self).sample_mode == old(self).sample_mode,
            final(self).path_iterations == old(self).path_iterations,
            final(self).iterations == old(self).iterations,
    {
        self.sample_pane = sample_pane_after(target, self.sample_pane);
    }
}

} // verus!

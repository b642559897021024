//! Interaction logic for a two-pane Mandelbrot / Julia explorer.
//!
//! The verified part of the explorer: which pane a click writes to, how a
//! pane's camera controller reacts to the input of one frame, in which order
//! a frame is drawn, how an orbit path is generated from a step function, and
//! how shared shader code is spliced into fragment sources. The arithmetic on
//! screen and world coordinates is done by the caller.

pub mod controls;
pub mod frame;
pub mod orbit;
pub mod pane;
pub mod settings;
pub mod shader_source;
pub mod uniforms;

pub use controls::{update_steps, ControlStep};
pub use frame::{draw_steps, DrawStep};
pub use orbit::orbit;
pub use pane::{interpolation_source, resolve_pick, sample_pane_after, InterpolationSource, Pane, PickTarget};
pub use settings::{Settings, DEFAULT_ITERATIONS, DEFAULT_PATH_ITERATIONS};
pub use shader_source::{find_first, splice_library};
pub use uniforms::{uniforms, UniformKind};

//! Integer and structural core of a generative feed pipeline.
//!
//! A run turns a block of raw integer samples (or the pixels of a bitmap)
//! into an ordered sequence of drawing primitives.  The floating-point
//! recurrences that place the points live outside this library; what is
//! verified here is everything the pipeline decides over integers and
//! strings: signal scaling and framing, equation-slot resolution, the
//! per-iteration schedule, and the bitmap threshold mapper.

pub mod args;
pub mod image_map;
pub mod plan;
pub mod select;
pub mod signal;

pub use args::parse_method;
pub use args::Method;
pub use signal::min_max;
pub use signal::ramp;

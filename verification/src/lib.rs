//! Decision logic for a falling-cubes physics scene.
//!
//! The scene keeps a set of cubes, each with a vertical position; cubes that
//! fall below a fixed threshold are culled, the rest are counted and the count
//! is shown as text. New cubes are spawned on a fixed-interval timer with a
//! randomized color and drop point. Positions and times are held here as
//! fixed-point integers (thousandths of a world unit, milliseconds); the host
//! converts at the boundary.

pub mod scene;
pub mod spawn;
pub mod text;
pub mod timer;

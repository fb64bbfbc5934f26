//! A verified crossfade core for skeletal animation.
//!
//! The library blends a character between two named animation clips instead
//! of hard-cutting: it resolves bone paths in a scene hierarchy, samples the
//! source clip's governing keyframes at a frozen playback time, computes a
//! time-varying fade factor, and produces the interpolated local transforms
//! for every bone the source clip animates.
//!
//! All quantities are plain integers: simulation time is counted in ticks
//! (`u64`), and transform components are fixed-point values (`i64`) whose
//! scale the embedding application chooses.  Rotation blending strictly
//! between the endpoints needs trigonometry the integer model cannot carry,
//! so mid-transition rotations are reported as an explicit spherical
//! interpolation request for the caller to execute; every other channel, and
//! the rotation endpoints, are computed here exactly.

pub mod blend;
pub mod clip;
pub mod curve;
pub mod driver;
pub mod fixed;
pub mod player;
pub mod scene;
pub mod state;
pub mod values;

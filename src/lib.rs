//! The decision core of an orbit camera controller: which input drives which motion,
//! which camera receives input, when the camera counts as upside down, when its transform
//! must be recomputed, and how values are held between optional limits.
use vstd::prelude::*;

pub mod camera;
pub mod clamp;
pub mod focus;
pub mod input;
pub mod touch;
pub mod viewport;

pub use clamp::OptionalClamp;

verus! {

/// Marker that tells the camera controls to ignore input while it holds `true`.
#[derive(PartialEq, Eq, Default, Clone, Copy, Debug)]
pub struct PanOrbitCameraIgnoreInput(pub bool);

} // verus!

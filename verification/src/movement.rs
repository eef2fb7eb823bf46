//! The ways in which the observer can be moved.

use vstd::prelude::*;

verus! {

/// Represents the direction of movement for the camera.
#[derive(Debug, Clone, Copy, PartialEq, Eq, Structural)]
pub enum MovementDirection {
    Forward,
    Backward,
    Left,
    Right,
}

} // verus!

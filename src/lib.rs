//! A small generic two-dimensional vector type with component-wise
//! arithmetic, dot products and tolerance comparison.
use vstd::prelude::*;

pub mod laws;
pub mod tolerance;
pub mod vector;

pub use vector::{IVec2, Vector2};

verus! {

} // verus!

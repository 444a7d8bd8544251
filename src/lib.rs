//! Three-component vectors over a generic scalar type: length, normalization,
//! dot and cross products, and the arithmetic and indexing operators.
use vstd::prelude::*;

pub mod lemmas;
pub mod vec;
pub mod vec3;

pub use vec::{Sqrt, Vec};
pub use vec3::Vec3;

verus! {

} // verus!

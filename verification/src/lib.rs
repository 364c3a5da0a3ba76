//! Fixed-arity numeric vectors: two-, three- and four-component tuples
//! over a numeric component type, with in-place element-wise arithmetic,
//! scalar mixing, range operations, and bounds-checked indexed access.
//!
//! The three arities are structurally independent types that expose an
//! identical operation vocabulary with identical semantics; each is
//! generic over any component type satisfying [`scalar::Numeric`].

use vstd::prelude::*;

pub mod scalar;
pub mod vector2;
pub mod vector3;
pub mod vector4;

pub use vector2::Vector2;
pub use vector3::Vector3;
pub use vector4::Vector4;

verus! {

/// The one failure of this library: an indexed component access named a
/// position that the vector's arity does not have. Carries the offending
/// index for diagnosis.
#[derive(Clone, Copy, Debug, PartialEq, Eq, Structural)]
pub struct IndexOutOfRange {
    pub index: usize,
}

} // verus!

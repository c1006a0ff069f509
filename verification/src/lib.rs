//! A type-erased, contiguous, growable container.
//!
//! A container instance stores values of a single runtime-identified element
//! type, packed by value in one buffer, without compile-time knowledge of that
//! type.  Element types are described by a numeric type identity together with
//! a byte layout; element payloads cross the container boundary as byte blocks
//! delivered by value producers.

pub mod any_value;
pub mod any_vec;
pub mod laws;
pub mod ops;
pub mod traits;

pub use crate::any_vec::AnyVec;
pub use crate::any_vec::AnyVecMut;
pub use crate::any_vec::CheckTraits;
pub use crate::any_vec::ElementDesc;
pub use crate::any_vec::ElementLayout;

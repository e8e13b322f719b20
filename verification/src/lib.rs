//! Fixed-length vectors and matrices over machine integers.
//!
//! A [`Vector`] holds exactly `N` elements, inline or on the heap, and offers
//! the operations of [`MathVector`]; a [`Matrix`] holds `M` rows of `N`
//! elements. Every operation is stated over the integers that the elements
//! stand for (see [`algebra`]) and is proved to compute exactly those, given
//! that the numbers it forms on the way can be stored in the element type.

pub mod algebra;
pub mod element;
pub mod math_vector;
pub mod matrix;
pub mod vector;

pub use element::Element;
pub use math_vector::{Indexed, MathVector};
pub use matrix::Matrix;
pub use vector::Vector;

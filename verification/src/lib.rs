//! Fixed-dimension numeric vectors.
//!
//! A [`Vector`] holds exactly `N` components of one element type. The
//! dimension is part of the type, so operands of different dimensions cannot
//! be combined. Every operation is a pure function of its operands; the
//! contracts describe each result component by component, in terms of the
//! element type's own operator specifications.

pub mod arithmetic;
pub mod combination;
pub mod dot;
pub mod element;
pub mod equality;
pub mod interpolation;
pub mod laws;
pub mod text;
pub mod vector;

pub use combination::linear_combination;
pub use interpolation::lerp;
pub use vector::Vector;

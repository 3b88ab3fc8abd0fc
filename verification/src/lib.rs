//! Quaternion algebra over exact rational scalars.
//!
//! A quaternion is four scalars `(w, x, y, z)`; the library offers the
//! algebraic operations (addition, subtraction, Hamilton product, right
//! division, conjugate, inverse, dot product, squared length) with contracts
//! that pin each result down exactly, and proofs of the central algebraic
//! laws: commutativity of addition, the identity laws of the Hamilton
//! product, the inverse law, and the right-division round trip.
//!
//! Scalars are exact rationals (an integer numerator over a nonzero integer
//! denominator), so every operation here is exact: no rounding and no
//! tolerance-based equality. The floating-point instantiation of the same
//! algebra — square-root length, conversion from Euler angles — lives outside
//! the verified library, since Verus does not reason about floating point.

pub mod laws;
pub mod quaternion;
pub mod rat;

pub use quaternion::q;
pub use quaternion::qi;
pub use quaternion::Quaternion;
pub use rat::Rat;

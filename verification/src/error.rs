//! The failures that the point operations report.

use vstd::prelude::*;

verus! {

/// Why a point operation did not produce a point.
#[derive(Clone, Copy, Debug, PartialEq, Eq, Structural)]
pub enum Error {
    /// A 64-byte buffer does not hold the coordinates of a point on the curve.
    InvalidPublic,
    /// A 32-byte buffer does not hold a nonzero scalar below the group order.
    InvalidSecret,
    /// The operands were valid, but the result is not a point that the
    /// 64-byte form can hold.
    ArithmeticError,
}

} // verus!

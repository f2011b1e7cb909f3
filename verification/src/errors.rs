//! Why a tick computed no order.

use vstd::prelude::*;

verus! {

/// An invalid computation: the tick is skipped, nothing is submitted and no
/// counter moves.
#[derive(Clone, Copy, PartialEq, Eq, Structural, Debug)]
pub enum ComputeError {
    /// The book side the reference price needs has no levels at all.
    InsufficientDepth,
    /// The price is zero, or rounding collapsed the limit price or the
    /// quantity to zero, or a result does not fit the exchange's range.
    InvalidQuantity,
}

} // verus!

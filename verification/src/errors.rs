//! The failure reasons a sale operation can report.

use vstd::prelude::*;

verus! {

/// Why a purchase was rejected. Every check in the purchase executor is a
/// hard precondition: on failure the call aborts with one of these reasons
/// and no state is mutated.
#[derive(Clone, Copy, Debug, PartialEq, Eq, Structural)]
pub enum ErrorCode {
    /// The sale's gate flag is off; purchases are rejected.
    LaunchpadNotActive,
    /// A source balance is too low: either the buyer cannot pay the cost or
    /// the sale vault cannot cover the requested amount.
    InsufficientTokens,
    /// Checked arithmetic overflowed, on the price times quantity product or
    /// on the raised-total accumulator.
    MathOverflow,
}

} // verus!

//! The ways in which an operation can be rejected.

use vstd::prelude::*;

verus! {

/// Why an operation was rejected. A rejected operation changes no state.
#[derive(Clone, Copy, Debug, PartialEq, Eq, Structural)]
pub enum Error {
    /// A caller other than the owner attempted a privileged write.
    Unauthorized,
    /// The payment attached to a purchase buys less than one token.
    InsufficientPayment,
    /// The unit price offered at initialization was zero.
    InvalidConfig,
    /// Crediting the tokens would exceed the range of a balance.
    Overflow,
}

} // verus!

//! Unsigned 256-bit amounts of payment units and of tokens.
//!
//! An [`Amount`] keeps its four 64-bit limbs in the open, so that the rules
//! of the ledger can be stated over the natural number they stand for. The
//! arithmetic itself is `alloy_primitives::U256`'s.

use alloy_primitives::U256;
use vstd::prelude::*;

verus! {

/// One more than the largest amount: two to the power 256.
pub open spec fn amount_limit() -> nat {
    0x1_0000_0000_0000_0000_0000_0000_0000_0000_0000_0000_0000_0000_0000_0000_0000_0000nat
}

/// The number that four 64-bit limbs stand for, least significant limb first.
pub open spec fn limbs_value(limbs: Seq<u64>) -> nat {
    (limbs[0] + limbs[1] * 0x1_0000_0000_0000_0000int
        + limbs[2] * 0x1_0000_0000_0000_0000_0000_0000_0000_0000int
        + limbs[3] * 0x1_0000_0000_0000_0000_0000_0000_0000_0000_0000_0000_0000_0000int) as nat
}

/// The character of a decimal digit, `'0'` for anything above nine.
pub open spec fn digit_char(d: nat) -> char {
    if d == 1 {
        '1'
    } else if d == 2 {
        '2'
    } else if d == 3 {
        '3'
    } else if d == 4 {
        '4'
    } else if d == 5 {
        '5'
    } else if d == 6 {
        '6'
    } else if d == 7 {
        '7'
    } else if d == 8 {
        '8'
    } else if d == 9 {
        '9'
    } else {
        '0'
    }
}

/// The decimal numeral of a natural number: no sign, no separators, no
/// leading zeros, and the single digit `0` for zero.
pub open spec fn decimal_digits(n: nat) -> Seq<char>
    decreases n,
{
    if n < 10 {
        seq![digit_char(n)]
    } else {
        decimal_digits(n / 10).push(digit_char(n % 10))
    }
}

/// An unsigned 256-bit quantity.
#[derive(Clone, Copy, Debug, PartialEq, Eq)]
pub struct Amount {
    limbs: [u64; 4],
}

impl View for Amount {
    type V = nat;

    open spec fn view(&self) -> nat {
        limbs_value(self.spec_limbs())
    }
}

impl Amount {
    /// The four limbs, least significant first.
    pub closed spec fn spec_limbs(&self) -> Seq<u64> {
        self.limbs@
    }

    /// Every amount has exactly four limbs and lies below two to the power 256.
    pub proof fn lemma_in_range(self)
        ensures
            self.spec_limbs().len() == 4,
            self@ < amount_limit(),
    {
    }

    /// The amount zero.
    pub fn zero() -> (a: Amount)
        ensures
            a@ == 0,
    {
        Amount { limbs: [0, 0, 0, 0] }
    }

    /// The amount with the given value.
    pub fn from_u64(value: u64) -> (a: Amount)
        ensures
            a@ == value,
    {
        Amount { limbs: [value, 0, 0, 0] }
    }

    /// The amount with the given limbs, least significant first.
    pub fn from_limbs(limbs: [u64; 4]) -> (a: Amount)
        ensures
            a.spec_limbs() == limbs@,
    {
        Amount { limbs }
    }

    /// The limbs of the amount, least significant first.
    pub fn to_limbs(&self) -> (limbs: [u64; 4])
        ensures
            limbs@ == self.spec_limbs(),
    {
        self.limbs
    }

    /// Whether the amount is zero.
    pub fn is_zero(&self) -> (z: bool)
        ensures
            z == (self@ == 0),
    {
        self.limbs[0] == 0 && self.limbs[1] == 0 && self.limbs[2] == 0 && self.limbs[3] == 0
    }
}

/// `alloy_primitives::U256::checked_add`: the exact sum where it is below
/// two to the power 256, and `None` where it is not.
#[verifier::external_body]
pub(crate) fn u256_checked_add(a: &Amount, b: &Amount) -> (sum: Option<Amount>)
    ensures
        a@ + b@ < amount_limit() ==> sum is Some && sum.unwrap()@ == a@ + b@,
        a@ + b@ >= amount_limit() ==> sum is None,
{
    match U256::from_limbs(a.limbs).checked_add(U256::from_limbs(b.limbs)) {
        Some(s) => Some(Amount { limbs: s.into_limbs() }),
        None => None,
    }
}

/// `alloy_primitives::U256::checked_div`: the quotient rounded down where
/// the divisor is not zero, and `None` where it is.
#[verifier::external_body]
pub(crate) fn u256_checked_div(a: &Amount, b: &Amount) -> (quotient: Option<Amount>)
    ensures
        b@ != 0 ==> quotient is Some && quotient.unwrap()@ == a@ / b@,
        b@ == 0 ==> quotient is None,
{
    match U256::from_limbs(a.limbs).checked_div(U256::from_limbs(b.limbs)) {
        Some(q) => Some(Amount { limbs: q.into_limbs() }),
        None => None,
    }
}

/// `alloy_primitives::U256`'s `Display`, through `to_string`: the decimal
/// numeral of the value.
#[verifier::external_body]
pub(crate) fn u256_to_string(a: &Amount) -> (numeral: String)
    ensures
        numeral@ == decimal_digits(a@),
{
    U256::from_limbs(a.limbs).to_string()
}

} // verus!

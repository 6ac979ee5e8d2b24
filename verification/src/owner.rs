//! The owner record: who administers the catalogue, and at what price
//! tokens are sold.

use crate::amount::{u256_checked_div, Amount};
use crate::error::Error;
use crate::identity::Identity;
use vstd::prelude::*;

verus! {

/// What an [`OwnerState`] holds, as mathematical values.
pub struct OwnerView {
    /// The bytes of the owner's identity.
    pub owner: Seq<u8>,
    /// Whether the system accepts operations.
    pub active: bool,
    /// The number of payment units that buys one token.
    pub unit_price: nat,
}

impl OwnerView {
    /// What holds of every owner record: it is active and its unit price
    /// is not zero.
    pub open spec fn valid(self) -> bool {
        self.active && self.unit_price > 0
    }
}

/// The number of whole tokens that `payment` buys at `unit_price`. What is
/// left over after the division buys nothing.
pub open spec fn tokens_bought(payment: nat, unit_price: nat) -> nat {
    payment / unit_price
}

/// The record that is written once, when the system is initialized, and
/// only read afterwards. It is active and its unit price is not zero.
pub struct OwnerState {
    owner: Identity,
    active: bool,
    unit_price: Amount,
}

impl View for OwnerState {
    type V = OwnerView;

    closed spec fn view(&self) -> OwnerView {
        OwnerView { owner: self.owner@, active: self.active, unit_price: self.unit_price@ }
    }
}

impl OwnerState {
    #[verifier::type_invariant]
    spec fn well_formed(self) -> bool {
        self@.valid()
    }

    /// The record of a system that `owner` initializes with `unit_price`.
    /// A unit price of zero is rejected with [`Error::InvalidConfig`].
    pub fn new(owner: Identity, unit_price: Amount) -> (outcome: Result<OwnerState, Error>)
        ensures
            unit_price@ == 0 ==> outcome == Err::<OwnerState, Error>(Error::InvalidConfig),
            unit_price@ != 0 ==> outcome is Ok && outcome.unwrap()@ == (OwnerView {
                owner: owner@,
                active: true,
                unit_price: unit_price@,
            }),
    {
        if unit_price.is_zero() {
            Err(Error::InvalidConfig)
        } else {
            Ok(OwnerState { owner, active: true, unit_price })
        }
    }

    /// The identity that may write to the catalogue.
    pub fn owner(&self) -> (owner: Identity)
        ensures
            owner@ == self@.owner,
    {
        self.owner
    }

    /// Whether the system accepts operations. It does from the moment the
    /// record is written: calling this also tells that the record is valid.
    pub fn is_active(&self) -> (active: bool)
        ensures
            active == self@.active,
            self@.valid(),
    {
        proof {
            use_type_invariant(self);
        }
        self.active
    }

    /// The number of payment units that buys one token.
    pub fn unit_price(&self) -> (unit_price: Amount)
        ensures
            unit_price@ == self@.unit_price,
    {
        self.unit_price
    }

    /// Lets the owner pass and rejects every other caller with
    /// [`Error::Unauthorized`].
    pub fn authorize(&self, caller: &Identity) -> (outcome: Result<(), Error>)
        ensures
            caller@ == self@.owner ==> outcome == Ok::<(), Error>(()),
            caller@ != self@.owner ==> outcome == Err::<(), Error>(Error::Unauthorized),
    {
        if *caller == self.owner {
            Ok(())
        } else {
            Err(Error::Unauthorized)
        }
    }

    /// The number of whole tokens that `payment` buys. A payment that buys
    /// none is rejected with [`Error::InsufficientPayment`].
    pub fn tokens_for(&self, payment: &Amount) -> (outcome: Result<Amount, Error>)
        ensures
            tokens_bought(payment@, self@.unit_price) == 0 ==> outcome == Err::<Amount, Error>(
                Error::InsufficientPayment,
            ),
            tokens_bought(payment@, self@.unit_price) != 0 ==> outcome is Ok && outcome.unwrap()@
                == tokens_bought(payment@, self@.unit_price),
    {
        proof {
            use_type_invariant(self);
        }
        match u256_checked_div(payment, &self.unit_price) {
            Some(tokens) => {
                if tokens.is_zero() {
                    Err(Error::InsufficientPayment)
                } else {
                    Ok(tokens)
                }
            },
            None => vstd::pervasive::unreached(),
        }
    }
}

} // verus!

//! The system as a state machine over mathematical values.
//!
//! Every operation of [`SafeSip`](crate::contract::SafeSip) is defined
//! here: what it reports, and the state that it leaves behind.

use crate::error::Error;
use crate::ledger::{after_credit, balance_in, credit_outcome};
use crate::owner::{tokens_bought, OwnerView};
use crate::registry::{is_genuine, ProductView};
use vstd::prelude::*;

verus! {

/// The whole state: the owner record, the catalogue in append order, and
/// the balance of every identity that was ever credited.
pub struct State {
    pub config: OwnerView,
    pub products: Seq<ProductView>,
    pub balances: Map<Seq<u8>, nat>,
}

impl State {
    /// What holds of every state that the system can be in: it is active
    /// and its unit price is not zero.
    pub open spec fn valid(self) -> bool {
        self.config.valid()
    }

    /// The state right after `owner` initialized the system with
    /// `unit_price`: no products, no balances.
    pub open spec fn initial(owner: Seq<u8>, unit_price: nat) -> State {
        State {
            config: OwnerView { owner, active: true, unit_price },
            products: Seq::empty(),
            balances: Map::empty(),
        }
    }

    /// The balance of `holder`: zero where it was never credited.
    pub open spec fn balance_of(self, holder: Seq<u8>) -> nat {
        balance_in(self.balances, holder)
    }

    /// Whether `barcode` belongs to a genuine product.
    pub open spec fn is_valid_product(self, barcode: Seq<char>) -> bool {
        is_genuine(self.products, barcode)
    }

    /// What `caller` is told when it asks to add a product.
    pub open spec fn add_product_outcome(self, caller: Seq<u8>) -> Result<(), Error> {
        if caller == self.config.owner {
            Ok(())
        } else {
            Err(Error::Unauthorized)
        }
    }

    /// The state after `caller` asked to add `product`: the product stands
    /// at the end of the catalogue where the caller is the owner, and
    /// nothing has changed where it is not.
    pub open spec fn after_add_product(self, caller: Seq<u8>, product: ProductView) -> State {
        if caller == self.config.owner {
            State { products: self.products.push(product), ..self }
        } else {
            self
        }
    }

    /// What `caller` is told when it purchases tokens with `payment`.
    pub open spec fn purchase_outcome(self, caller: Seq<u8>, payment: nat) -> Result<(), Error> {
        if tokens_bought(payment, self.config.unit_price) == 0 {
            Err(Error::InsufficientPayment)
        } else {
            credit_outcome(self.balances, caller, tokens_bought(payment, self.config.unit_price))
        }
    }

    /// The state after `caller` purchased tokens with `payment`: the tokens
    /// bought are on its balance where the purchase succeeded, and nothing
    /// has changed where it failed.
    pub open spec fn after_purchase(self, caller: Seq<u8>, payment: nat) -> State {
        if tokens_bought(payment, self.config.unit_price) == 0 {
            self
        } else {
            State {
                balances: after_credit(
                    self.balances,
                    caller,
                    tokens_bought(payment, self.config.unit_price),
                ),
                ..self
            }
        }
    }
}

} // verus!

//! The operations that the host may invoke.

use crate::amount::{decimal_digits, u256_to_string, Amount};
use crate::error::Error;
use crate::identity::Identity;
use crate::ledger::Ledger;
use crate::model::State;
use crate::owner::OwnerState;
use crate::registry::{Product, ProductRegistry, ProductView};
use vstd::prelude::*;

verus! {

/// What the host supplies with every call: who is calling, and how many
/// payment units are attached to the call.
#[derive(Clone, Copy, Debug)]
pub struct CallContext {
    pub caller: Identity,
    pub value: Amount,
}

/// The registry and the ledger of one initialized system.
pub struct SafeSip {
    config: OwnerState,
    registry: ProductRegistry,
    ledger: Ledger,
}

impl View for SafeSip {
    type V = State;

    closed spec fn view(&self) -> State {
        State { config: self.config@, products: self.registry@, balances: self.ledger@ }
    }
}

impl SafeSip {
    /// Initializes a system: the caller becomes its owner, and one token
    /// costs `unit_price` payment units from then on. A unit price of zero
    /// is rejected with [`Error::InvalidConfig`].
    ///
    /// Initialization is what brings a system into being, so no operation
    /// can come before it and none can repeat it.
    pub fn initialize(ctx: &CallContext, unit_price: Amount) -> (outcome: Result<SafeSip, Error>)
        ensures
            unit_price@ == 0 ==> outcome == Err::<SafeSip, Error>(Error::InvalidConfig),
            unit_price@ != 0 ==> outcome is Ok && outcome.unwrap()@ == State::initial(
                ctx.caller@,
                unit_price@,
            ),
    {
        match OwnerState::new(ctx.caller, unit_price) {
            Ok(config) => Ok(
                SafeSip { config, registry: ProductRegistry::new(), ledger: Ledger::new() },
            ),
            Err(e) => Err(e),
        }
    }

    /// The identity that may add products.
    pub fn owner(&self) -> (owner: Identity)
        ensures
            owner@ == self@.config.owner,
    {
        self.config.owner()
    }

    /// Whether the system accepts operations. It does from its
    /// initialization on: calling this also tells that the state is valid.
    pub fn is_active(&self) -> (active: bool)
        ensures
            active == self@.config.active,
            self@.valid(),
    {
        self.config.is_active()
    }

    /// The token balance of `user`, zero for a user that never purchased.
    pub fn balance_of(&self, user: &Identity) -> (balance: Amount)
        ensures
            balance@ == self@.balance_of(user@),
    {
        self.ledger.balance_of(user)
    }

    /// The token balance of `user` as a decimal numeral.
    pub fn get_user_balance(&self, user: Identity) -> (numeral: String)
        ensures
            numeral@ == decimal_digits(self@.balance_of(user@)),
    {
        u256_to_string(&self.ledger.balance_of(&user))
    }

    /// Converts the payment attached to the call into tokens for the
    /// caller, at the unit price and rounding down. A payment below the
    /// unit price is rejected with [`Error::InsufficientPayment`], and one
    /// that would take the balance out of range with [`Error::Overflow`];
    /// a rejected purchase changes nothing.
    pub fn purchase_tokens(&mut self, ctx: &CallContext) -> (outcome: Result<(), Error>)
        ensures
            outcome == old(self)@.purchase_outcome(ctx.caller@, ctx.value@),
            final(self)@ == old(self)@.after_purchase(ctx.caller@, ctx.value@),
    {
        match self.config.tokens_for(&ctx.value) {
            Ok(tokens) => self.ledger.credit(&ctx.caller, &tokens),
            Err(e) => Err(e),
        }
    }

    /// Appends a product to the catalogue. Only the owner may do so: any
    /// other caller is rejected with [`Error::Unauthorized`], and nothing
    /// changes.
    pub fn add_product(
        &mut self,
        ctx: &CallContext,
        product_id: u64,
        name: String,
        barcode: String,
        is_fake: bool,
    ) -> (outcome: Result<(), Error>)
        ensures
            outcome == old(self)@.add_product_outcome(ctx.caller@),
            final(self)@ == old(self)@.after_add_product(
                ctx.caller@,
                ProductView {
                    id: product_id,
                    name: name@,
                    barcode: barcode@,
                    is_fake,
                },
            ),
    {
        match self.config.authorize(&ctx.caller) {
            Ok(()) => {
                self.registry.append(Product { id: product_id, name, barcode, is_fake });
                Ok(())
            },
            Err(e) => Err(e),
        }
    }

    /// The number of products in the catalogue.
    pub fn product_count(&self) -> (count: usize)
        ensures
            count == self@.products.len(),
    {
        self.registry.len()
    }

    /// The product that was added as number `index`, counting from zero,
    /// or `None` where fewer products have been added.
    pub fn product(&self, index: usize) -> (record: Option<&Product>)
        ensures
            index < self@.products.len() ==> record is Some && record.unwrap()@
                == self@.products[index as int],
            index >= self@.products.len() ==> record is None,
    {
        self.registry.get(index)
    }

    /// Whether `barcode` belongs to a genuine product: the earliest record
    /// that carries it is not flagged as fake. A barcode that no record
    /// carries is not valid.
    pub fn is_valid_product(&self, barcode: String) -> (valid: bool)
        ensures
            valid == self@.is_valid_product(barcode@),
    {
        self.registry.is_valid_product(&barcode)
    }
}

} // verus!

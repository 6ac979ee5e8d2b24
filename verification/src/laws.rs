//! What holds of the state machine in every state and for every input.

use crate::amount::amount_limit;
use crate::error::Error;
use crate::model::State;
use crate::owner::tokens_bought;
use crate::registry::{is_first_match, ProductView};
use vstd::arithmetic::div_mod::{lemma_basic_div, lemma_fundamental_div_mod_converse};
use vstd::prelude::*;

verus! {

/// The state after `caller` asked to add each of `products`, one call
/// after the other.
pub open spec fn after_add_products(state: State, caller: Seq<u8>, products: Seq<ProductView>) -> State
    decreases products.len(),
{
    if products.len() == 0 {
        state
    } else {
        after_add_products(state, caller, products.drop_last()).after_add_product(
            caller,
            products.last(),
        )
    }
}

/// A system that was initialized with a unit price other than zero starts
/// out valid, with an empty catalogue and no balances.
pub proof fn law_initial_state_is_valid(owner: Seq<u8>, unit_price: nat)
    requires
        unit_price != 0,
    ensures
        State::initial(owner, unit_price).valid(),
        State::initial(owner, unit_price).config.owner == owner,
        State::initial(owner, unit_price).config.unit_price == unit_price,
        State::initial(owner, unit_price).products.len() == 0,
        forall|holder: Seq<u8>| State::initial(owner, unit_price).balance_of(holder) == 0,
{
}

/// The owner record is written once: neither operation changes the owner,
/// the unit price or the active flag, so a valid state stays valid.
pub proof fn law_owner_record_is_never_rewritten(
    state: State,
    caller: Seq<u8>,
    product: ProductView,
    payment: nat,
)
    ensures
        state.after_add_product(caller, product).config == state.config,
        state.after_purchase(caller, payment).config == state.config,
        state.valid() ==> state.after_add_product(caller, product).valid(),
        state.valid() ==> state.after_purchase(caller, payment).valid(),
{
}

/// Each product that the owner adds makes the catalogue longer by exactly
/// one record, its own, at the end; the balances stay as they were.
pub proof fn law_owner_appends_one(state: State, product: ProductView)
    ensures
        state.add_product_outcome(state.config.owner) == Ok::<(), Error>(()),
        state.after_add_product(state.config.owner, product).products.len()
            == state.products.len() + 1,
        state.after_add_product(state.config.owner, product).products == state.products.push(
            product,
        ),
        state.after_add_product(state.config.owner, product).balances == state.balances,
{
}

/// After the owner added a sequence of products, call by call, the
/// catalogue is the old one followed by that sequence in call order.
pub proof fn law_owner_appends_in_call_order(state: State, products: Seq<ProductView>)
    ensures
        after_add_products(state, state.config.owner, products).products == state.products
            + products,
        after_add_products(state, state.config.owner, products).products.len()
            == state.products.len() + products.len(),
        after_add_products(state, state.config.owner, products).config == state.config,
        after_add_products(state, state.config.owner, products).balances == state.balances,
    decreases products.len(),
{
    if products.len() > 0 {
        law_owner_appends_in_call_order(state, products.drop_last());
        assert(products == products.drop_last().push(products.last()));
        assert(state.products + products == (state.products + products.drop_last()).push(
            products.last(),
        ));
    } else {
        assert(state.products + products == state.products);
    }
}

/// A caller other than the owner who asks to add a product is told
/// `Unauthorized`, and the state stays as it was.
pub proof fn law_stranger_cannot_append(state: State, caller: Seq<u8>, product: ProductView)
    requires
        caller != state.config.owner,
    ensures
        state.add_product_outcome(caller) == Err::<(), Error>(Error::Unauthorized),
        state.after_add_product(caller, product) == state,
{
}

/// A barcode that no record carries is not valid.
pub proof fn law_unknown_barcode_is_invalid(state: State, barcode: Seq<char>)
    requires
        forall|i: int| 0 <= i < state.products.len() ==> state.products[i].barcode != barcode,
    ensures
        !state.is_valid_product(barcode),
{
}

/// Where several records carry a barcode, the one that was appended first
/// decides alone whether the barcode is valid.
pub proof fn law_first_record_decides(state: State, barcode: Seq<char>, first: int)
    requires
        is_first_match(state.products, barcode, first),
    ensures
        state.is_valid_product(barcode) == !state.products[first].is_fake,
{
    if state.is_valid_product(barcode) {
        let i = choose|i: int| #[trigger]
            is_first_match(state.products, barcode, i) && !state.products[i].is_fake;
        assert(i == first) by {
            if i < first {
                assert(state.products[i].barcode != barcode);
            } else if first < i {
                assert(state.products[first].barcode != barcode);
            }
        }
    }
}

/// A payment below the unit price is rejected with `InsufficientPayment`,
/// and every balance stays as it was.
pub proof fn law_small_payment_is_rejected(state: State, caller: Seq<u8>, payment: nat)
    requires
        state.valid(),
        payment < state.config.unit_price,
    ensures
        state.purchase_outcome(caller, payment) == Err::<(), Error>(Error::InsufficientPayment),
        state.after_purchase(caller, payment) == state,
        forall|holder: Seq<u8>|
            state.after_purchase(caller, payment).balance_of(holder) == state.balance_of(holder),
{
    lemma_basic_div(payment as int, state.config.unit_price as int);
}

/// A payment of `unit_price * tokens + change`, with the change below the
/// unit price, buys exactly `tokens` tokens: the change buys nothing.
pub proof fn law_payment_converts_at_unit_price(unit_price: nat, tokens: nat, change: nat)
    requires
        change < unit_price,
    ensures
        tokens_bought(unit_price * tokens + change, unit_price) == tokens,
{
    assert(unit_price * tokens == tokens * unit_price) by (nonlinear_arith);
    lemma_fundamental_div_mod_converse(
        (unit_price * tokens + change) as int,
        unit_price as int,
        tokens as int,
        change as int,
    );
}

/// A payment of exactly `tokens` times the unit price, for `tokens` above
/// zero, puts exactly `tokens` more on the caller's balance, as long as
/// the balance stays in range: a caller that had nothing then has
/// `tokens`. No other balance changes.
pub proof fn law_exact_payment_converts_losslessly(state: State, caller: Seq<u8>, tokens: nat)
    requires
        state.valid(),
        tokens > 0,
        state.balance_of(caller) + tokens < amount_limit(),
    ensures
        state.purchase_outcome(caller, state.config.unit_price * tokens) == Ok::<(), Error>(()),
        state.after_purchase(caller, state.config.unit_price * tokens).balance_of(caller)
            == state.balance_of(caller) + tokens,
        state.balance_of(caller) == 0 ==> state.after_purchase(
            caller,
            state.config.unit_price * tokens,
        ).balance_of(caller) == tokens,
        forall|holder: Seq<u8>|
            holder != caller ==> state.after_purchase(
                caller,
                state.config.unit_price * tokens,
            ).balance_of(holder) == state.balance_of(holder),
{
    law_payment_converts_at_unit_price(state.config.unit_price, tokens, 0);
}

/// A payment of `tokens` times the unit price and some change below the
/// unit price puts exactly `tokens` on the caller's balance, as long as
/// the balance stays in range: the change is neither credited nor kept
/// for later. Where `tokens` is zero the purchase is rejected and the
/// balance stays as it was.
pub proof fn law_remainder_is_forfeited(state: State, caller: Seq<u8>, tokens: nat, change: nat)
    requires
        state.valid(),
        0 < change < state.config.unit_price,
        state.balance_of(caller) + tokens < amount_limit(),
    ensures
        state.purchase_outcome(caller, state.config.unit_price * tokens + change) == (if tokens
            == 0 {
            Err::<(), Error>(Error::InsufficientPayment)
        } else {
            Ok::<(), Error>(())
        }),
        state.after_purchase(caller, state.config.unit_price * tokens + change).balance_of(caller)
            == state.balance_of(caller) + tokens,
        state.balance_of(caller) == 0 ==> state.after_purchase(
            caller,
            state.config.unit_price * tokens + change,
        ).balance_of(caller) == tokens,
        forall|holder: Seq<u8>|
            holder != caller ==> state.after_purchase(
                caller,
                state.config.unit_price * tokens + change,
            ).balance_of(holder) == state.balance_of(holder),
{
    law_payment_converts_at_unit_price(state.config.unit_price, tokens, change);
}

/// The catalogue only grows: after either operation, every record that
/// was there is still there, at its place and with its fields unchanged.
pub proof fn law_catalogue_only_grows(
    state: State,
    caller: Seq<u8>,
    product: ProductView,
    payment: nat,
)
    ensures
        state.products.is_prefix_of(state.after_add_product(caller, product).products),
        state.after_purchase(caller, payment).products == state.products,
{
}

/// No balance ever goes down: after either operation, every identity has
/// at least what it had.
pub proof fn law_balances_never_decrease(
    state: State,
    caller: Seq<u8>,
    product: ProductView,
    payment: nat,
    holder: Seq<u8>,
)
    ensures
        state.after_add_product(caller, product).balance_of(holder) == state.balance_of(holder),
        state.after_purchase(caller, payment).balance_of(holder) >= state.balance_of(holder),
{
}

} // verus!

use safesip::ledger::credited;
use safesip::{Amount, CallContext, Error, Identity, Ledger, OwnerState, SafeSip};

const MAX: [u64; 4] = [u64::MAX; 4];

fn identity(tag: u8) -> Identity {
    Identity::from_bytes([tag; 20])
}

fn call(caller: Identity, value: Amount) -> CallContext {
    CallContext { caller, value }
}

fn system(unit_price: Amount) -> SafeSip {
    match SafeSip::initialize(&call(identity(0), Amount::zero()), unit_price) {
        Ok(system) => system,
        Err(e) => panic!("initialization failed: {:?}", e),
    }
}

fn config(unit_price: u64) -> OwnerState {
    match OwnerState::new(identity(0), Amount::from_u64(unit_price)) {
        Ok(config) => config,
        Err(e) => panic!("unit price rejected: {:?}", e),
    }
}

#[test]
fn payment_below_unit_price_is_rejected() {
    let alice = identity(1);
    let bob = identity(2);
    let mut sip = system(Amount::from_u64(100));
    assert_eq!(sip.purchase_tokens(&call(alice, Amount::from_u64(300))), Ok(()));
    for payment in [0u64, 1, 50, 99] {
        assert_eq!(
            sip.purchase_tokens(&call(bob, Amount::from_u64(payment))),
            Err(Error::InsufficientPayment)
        );
        assert_eq!(
            sip.purchase_tokens(&call(alice, Amount::from_u64(payment))),
            Err(Error::InsufficientPayment)
        );
        assert_eq!(sip.get_user_balance(alice), "3");
        assert_eq!(sip.get_user_balance(bob), "0");
    }
}

#[test]
fn exact_multiples_convert_losslessly() {
    for (i, tokens) in [1u64, 2, 7, 1_000, 184_467_440_737_095_516].iter().enumerate() {
        let caller = identity(i as u8 + 1);
        let mut sip = system(Amount::from_u64(100));
        assert_eq!(sip.purchase_tokens(&call(caller, Amount::from_u64(100 * tokens))), Ok(()));
        assert_eq!(sip.get_user_balance(caller), tokens.to_string());
        assert_eq!(sip.balance_of(&caller), Amount::from_u64(*tokens));
    }
}

#[test]
fn remainder_is_forfeited() {
    let alice = identity(1);
    let mut sip = system(Amount::from_u64(100));
    assert_eq!(sip.purchase_tokens(&call(alice, Amount::from_u64(299))), Ok(()));
    assert_eq!(sip.get_user_balance(alice), "2");
    assert_eq!(sip.purchase_tokens(&call(alice, Amount::from_u64(101))), Ok(()));
    assert_eq!(sip.get_user_balance(alice), "3");
    assert_eq!(sip.purchase_tokens(&call(alice, Amount::from_u64(99))), Err(Error::InsufficientPayment));
    assert_eq!(sip.purchase_tokens(&call(alice, Amount::from_u64(1))), Err(Error::InsufficientPayment));
    assert_eq!(sip.get_user_balance(alice), "3");
}

#[test]
fn purchases_accumulate_per_caller() {
    let alice = identity(1);
    let bob = identity(2);
    let mut sip = system(Amount::from_u64(7));
    assert_eq!(sip.purchase_tokens(&call(alice, Amount::from_u64(70))), Ok(()));
    assert_eq!(sip.purchase_tokens(&call(bob, Amount::from_u64(7))), Ok(()));
    assert_eq!(sip.purchase_tokens(&call(alice, Amount::from_u64(20))), Ok(()));
    assert_eq!(sip.get_user_balance(alice), "12");
    assert_eq!(sip.get_user_balance(bob), "1");
    assert_eq!(sip.get_user_balance(identity(3)), "0");
    assert_eq!(sip.product_count(), 0);
}

#[test]
fn purchase_overflowing_the_balance_is_rejected() {
    let alice = identity(1);
    let bob = identity(2);
    let mut sip = system(Amount::from_u64(1));
    assert_eq!(sip.purchase_tokens(&call(alice, Amount::from_limbs(MAX))), Ok(()));
    assert_eq!(sip.balance_of(&alice), Amount::from_limbs(MAX));
    assert_eq!(sip.purchase_tokens(&call(alice, Amount::from_u64(1))), Err(Error::Overflow));
    assert_eq!(sip.balance_of(&alice), Amount::from_limbs(MAX));
    assert_eq!(sip.purchase_tokens(&call(bob, Amount::from_u64(1))), Ok(()));
    assert_eq!(sip.get_user_balance(bob), "1");
    assert_eq!(
        sip.get_user_balance(alice),
        "115792089237316195423570985008687907853269984665640564039457584007913129639935"
    );
}

#[test]
fn purchase_with_wide_amounts() {
    let alice = identity(1);
    // A unit price of 2^64 and a payment of 3 * 2^128 + 5 buy 3 * 2^64 tokens.
    let mut sip = system(Amount::from_limbs([0, 1, 0, 0]));
    assert_eq!(sip.purchase_tokens(&call(alice, Amount::from_limbs([5, 0, 3, 0]))), Ok(()));
    assert_eq!(sip.balance_of(&alice).to_limbs(), [0, 3, 0, 0]);
    assert_eq!(sip.get_user_balance(alice), "55340232221128654848");
    assert_eq!(
        sip.purchase_tokens(&call(alice, Amount::from_limbs([u64::MAX, 0, 0, 0]))),
        Err(Error::InsufficientPayment)
    );

    // A unit price of 2^128 + 1 and a payment of 5 * (2^128 + 1) + 3 buy 5 tokens.
    let bob = identity(2);
    let mut sip = system(Amount::from_limbs([1, 0, 1, 0]));
    assert_eq!(sip.purchase_tokens(&call(bob, Amount::from_limbs([8, 0, 5, 0]))), Ok(()));
    assert_eq!(sip.get_user_balance(bob), "5");
    assert_eq!(
        sip.purchase_tokens(&call(bob, Amount::from_limbs([0, 0, 1, 0]))),
        Err(Error::InsufficientPayment)
    );
    assert_eq!(sip.purchase_tokens(&call(bob, Amount::from_limbs([1, 0, 1, 0]))), Ok(()));
    assert_eq!(sip.get_user_balance(bob), "6");
}

#[test]
fn tokens_for_divides_rounding_down() {
    let config = config(100);
    assert_eq!(config.tokens_for(&Amount::from_u64(250)), Ok(Amount::from_u64(2)));
    assert_eq!(config.tokens_for(&Amount::from_u64(100)), Ok(Amount::from_u64(1)));
    assert_eq!(config.tokens_for(&Amount::from_u64(199)), Ok(Amount::from_u64(1)));
    assert_eq!(config.tokens_for(&Amount::from_u64(99)), Err(Error::InsufficientPayment));
    assert_eq!(config.tokens_for(&Amount::zero()), Err(Error::InsufficientPayment));
    assert_eq!(
        config.tokens_for(&Amount::from_limbs([0, 100, 0, 0])),
        Ok(Amount::from_limbs([0, 1, 0, 0]))
    );
}

#[test]
fn owner_state_reads_back_what_was_written() {
    let owner = identity(4);
    let state = match OwnerState::new(owner, Amount::from_u64(25)) {
        Ok(state) => state,
        Err(e) => panic!("unit price rejected: {:?}", e),
    };
    assert_eq!(state.owner(), owner);
    assert!(state.is_active());
    assert_eq!(state.unit_price(), Amount::from_u64(25));
    assert_eq!(state.authorize(&owner), Ok(()));
    assert_eq!(state.authorize(&identity(5)), Err(Error::Unauthorized));
    assert_eq!(OwnerState::new(owner, Amount::zero()).err(), Some(Error::InvalidConfig));
}

#[test]
fn credited_adds_or_reports_overflow() {
    assert_eq!(credited(&Amount::from_u64(5), &Amount::from_u64(7)), Ok(Amount::from_u64(12)));
    assert_eq!(credited(&Amount::zero(), &Amount::zero()), Ok(Amount::zero()));
    assert_eq!(
        credited(&Amount::from_limbs([u64::MAX, 0, 0, 0]), &Amount::from_u64(1)),
        Ok(Amount::from_limbs([0, 1, 0, 0]))
    );
    assert_eq!(
        credited(&Amount::from_limbs([u64::MAX, u64::MAX, u64::MAX, u64::MAX - 1]), &Amount::from_limbs([0, 0, 0, 1])),
        Ok(Amount::from_limbs(MAX))
    );
    assert_eq!(credited(&Amount::from_limbs(MAX), &Amount::from_u64(1)), Err(Error::Overflow));
    assert_eq!(
        credited(&Amount::from_limbs([0, 0, 0, 1 << 63]), &Amount::from_limbs([0, 0, 0, 1 << 63])),
        Err(Error::Overflow)
    );
}

#[test]
fn ledger_credits_and_reads_balances() {
    let alice = identity(1);
    let bob = identity(2);
    let mut ledger = Ledger::new();
    assert_eq!(ledger.balance_of(&alice), Amount::zero());
    assert_eq!(ledger.credit(&alice, &Amount::from_u64(5)), Ok(()));
    assert_eq!(ledger.credit(&bob, &Amount::from_u64(1)), Ok(()));
    assert_eq!(ledger.credit(&alice, &Amount::from_u64(7)), Ok(()));
    assert_eq!(ledger.balance_of(&alice), Amount::from_u64(12));
    assert_eq!(ledger.balance_of(&bob), Amount::from_u64(1));
    assert_eq!(ledger.credit(&bob, &Amount::from_limbs(MAX)), Err(Error::Overflow));
    assert_eq!(ledger.balance_of(&bob), Amount::from_u64(1));
    assert_eq!(ledger.balance_of(&identity(3)), Amount::zero());
}

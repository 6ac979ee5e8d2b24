//! The token ledger: a balance for every identity, zero until first credited.

use crate::amount::{amount_limit, u256_checked_add, Amount};
use crate::error::Error;
use crate::identity::Identity;
use vstd::prelude::*;

verus! {

/// The balance that `balances` records for `holder`: zero for a holder that
/// was never credited.
pub open spec fn balance_in(balances: Map<Seq<u8>, nat>, holder: Seq<u8>) -> nat {
    if balances.dom().contains(holder) {
        balances[holder]
    } else {
        0
    }
}

/// Whether `tokens` more fit on the balance of `holder`.
pub open spec fn can_credit(balances: Map<Seq<u8>, nat>, holder: Seq<u8>, tokens: nat) -> bool {
    balance_in(balances, holder) + tokens < amount_limit()
}

/// What crediting `tokens` to `holder` reports: [`Error::Overflow`] where
/// the new balance would not fit in 256 bits.
pub open spec fn credit_outcome(balances: Map<Seq<u8>, nat>, holder: Seq<u8>, tokens: nat) -> Result<
    (),
    Error,
> {
    if can_credit(balances, holder, tokens) {
        Ok(())
    } else {
        Err(Error::Overflow)
    }
}

/// The balances after `tokens` are credited to `holder`: unchanged where
/// the new balance would not fit in 256 bits.
pub open spec fn after_credit(balances: Map<Seq<u8>, nat>, holder: Seq<u8>, tokens: nat) -> Map<
    Seq<u8>,
    nat,
> {
    if can_credit(balances, holder, tokens) {
        balances.insert(holder, balance_in(balances, holder) + tokens)
    } else {
        balances
    }
}

/// The balance after `tokens` are added to `balance`, or [`Error::Overflow`]
/// where the sum does not fit in 256 bits.
pub fn credited(balance: &Amount, tokens: &Amount) -> (outcome: Result<Amount, Error>)
    ensures
        balance@ + tokens@ < amount_limit() ==> outcome is Ok && outcome.unwrap()@ == balance@
            + tokens@,
        balance@ + tokens@ >= amount_limit() ==> outcome == Err::<Amount, Error>(Error::Overflow),
{
    match u256_checked_add(balance, tokens) {
        Some(sum) => Ok(sum),
        None => Err(Error::Overflow),
    }
}

struct Account {
    holder: Identity,
    balance: Amount,
}

spec fn is_account_of(accounts: Seq<Account>, holder: Seq<u8>, i: int) -> bool {
    0 <= i < accounts.len() && accounts[i].holder@ == holder
}

spec fn has_account(accounts: Seq<Account>, holder: Seq<u8>) -> bool {
    exists|i: int| is_account_of(accounts, holder, i)
}

spec fn account_index(accounts: Seq<Account>, holder: Seq<u8>) -> int {
    choose|i: int| is_account_of(accounts, holder, i)
}

spec fn distinct_holders(accounts: Seq<Account>) -> bool {
    forall|i: int, j: int|
        0 <= i < j < accounts.len() ==> (#[trigger] accounts[i]).holder@ != (
        #[trigger] accounts[j]).holder@
}

spec fn balances_of(accounts: Seq<Account>) -> Map<Seq<u8>, nat> {
    Map::new(
        |holder: Seq<u8>| has_account(accounts, holder),
        |holder: Seq<u8>| accounts[account_index(accounts, holder)].balance@,
    )
}

proof fn lemma_account(accounts: Seq<Account>, holder: Seq<u8>, i: int)
    requires
        distinct_holders(accounts),
        is_account_of(accounts, holder, i),
    ensures
        has_account(accounts, holder),
        account_index(accounts, holder) == i,
        balance_in(balances_of(accounts), holder) == accounts[i].balance@,
{
    let p = account_index(accounts, holder);
    assert(is_account_of(accounts, holder, p));
    if p < i {
        assert(accounts[p].holder@ != accounts[i].holder@);
    } else if i < p {
        assert(accounts[i].holder@ != accounts[p].holder@);
    }
}

proof fn lemma_rebalance(accounts: Seq<Account>, i: int, balance: Amount)
    requires
        distinct_holders(accounts),
        0 <= i < accounts.len(),
    ensures
        distinct_holders(accounts.update(i, Account { holder: accounts[i].holder, balance })),
        balances_of(accounts.update(i, Account { holder: accounts[i].holder, balance }))
            == balances_of(accounts).insert(accounts[i].holder@, balance@),
{
    let holder = accounts[i].holder@;
    let after = accounts.update(i, Account { holder: accounts[i].holder, balance });
    assert forall|k: Seq<u8>, j: int| is_account_of(after, k, j) == is_account_of(
        accounts,
        k,
        j,
    ) by {}
    assert(distinct_holders(after)) by {
        assert forall|a: int, b: int| 0 <= a < b < after.len() implies (#[trigger] after[a]).holder@
            != (#[trigger] after[b]).holder@ by {
            assert(accounts[a].holder@ != accounts[b].holder@);
        }
    }
    assert forall|k: Seq<u8>| has_account(after, k) == has_account(accounts, k) by {
        if has_account(accounts, k) {
            assert(is_account_of(after, k, account_index(accounts, k)));
        }
        if has_account(after, k) {
            assert(is_account_of(accounts, k, account_index(after, k)));
        }
    }
    assert(is_account_of(accounts, holder, i));
    assert forall|k: Seq<u8>| has_account(after, k) implies balances_of(after)[k] == (if k
        == holder {
        balance@
    } else {
        balances_of(accounts)[k]
    }) by {
        let p = account_index(after, k);
        assert(is_account_of(after, k, p));
        lemma_account(accounts, k, p);
    }
    assert(balances_of(after) =~= balances_of(accounts).insert(holder, balance@));
}

proof fn lemma_open(accounts: Seq<Account>, account: Account)
    requires
        distinct_holders(accounts),
        !has_account(accounts, account.holder@),
    ensures
        distinct_holders(accounts.push(account)),
        balances_of(accounts.push(account)) == balances_of(accounts).insert(
            account.holder@,
            account.balance@,
        ),
{
    let holder = account.holder@;
    let after = accounts.push(account);
    let last = accounts.len() as int;
    assert(distinct_holders(after)) by {
        assert forall|a: int, b: int| 0 <= a < b < after.len() implies (#[trigger] after[a]).holder@
            != (#[trigger] after[b]).holder@ by {
            if b == last {
                assert(!is_account_of(accounts, holder, a));
            } else {
                assert(accounts[a].holder@ != accounts[b].holder@);
            }
        }
    }
    assert(is_account_of(after, holder, last));
    assert forall|k: Seq<u8>| has_account(after, k) == (has_account(accounts, k) || k
        == holder) by {
        if has_account(accounts, k) {
            assert(is_account_of(after, k, account_index(accounts, k)));
        }
        if has_account(after, k) && k != holder {
            assert(is_account_of(accounts, k, account_index(after, k)));
        }
    }
    assert forall|k: Seq<u8>| has_account(after, k) implies balances_of(after)[k] == (if k
        == holder {
        account.balance@
    } else {
        balances_of(accounts)[k]
    }) by {
        let p = account_index(after, k);
        assert(is_account_of(after, k, p));
        lemma_account(after, k, p);
        if k != holder {
            lemma_account(accounts, k, p);
        } else if p != last {
            assert(is_account_of(accounts, k, p));
        }
    }
    assert(balances_of(after) =~= balances_of(accounts).insert(holder, account.balance@));
}

/// The balances of all identities that were ever credited.
///
/// Its view maps the bytes of each such identity to its balance.
pub struct Ledger {
    accounts: Vec<Account>,
}

impl View for Ledger {
    type V = Map<Seq<u8>, nat>;

    closed spec fn view(&self) -> Map<Seq<u8>, nat> {
        balances_of(self.accounts@)
    }
}

impl Ledger {
    /// No identity has two accounts.
    #[verifier::type_invariant]
    spec fn well_formed(self) -> bool {
        distinct_holders(self.accounts@)
    }

    /// The ledger in which nobody was credited yet.
    pub fn new() -> (ledger: Ledger)
        ensures
            ledger@ == Map::<Seq<u8>, nat>::empty(),
    {
        let ledger = Ledger { accounts: Vec::new() };
        assert(ledger@ =~= Map::<Seq<u8>, nat>::empty());
        ledger
    }

    fn find(&self, holder: &Identity) -> (found: Option<usize>)
        ensures
            match found {
                Some(i) => is_account_of(self.accounts@, holder@, i as int),
                None => !has_account(self.accounts@, holder@),
            },
    {
        let count = self.accounts.len();
        let mut i: usize = 0;
        while i < count
            invariant
                count == self.accounts@.len(),
                i <= count,
                forall|j: int| 0 <= j < i ==> !is_account_of(self.accounts@, holder@, j),
            decreases count - i,
        {
            if self.accounts[i].holder == *holder {
                return Some(i);
            }
            i += 1;
        }
        None
    }

    /// The balance of `holder`: zero where it was never credited.
    pub fn balance_of(&self, holder: &Identity) -> (balance: Amount)
        ensures
            balance@ == balance_in(self@, holder@),
    {
        proof {
            use_type_invariant(self);
        }
        match self.find(holder) {
            Some(i) => {
                proof {
                    lemma_account(self.accounts@, holder@, i as int);
                }
                self.accounts[i].balance
            },
            None => Amount::zero(),
        }
    }

    /// Adds `tokens` to the balance of `holder`. Where the new balance would
    /// not fit in 256 bits, nothing changes and [`Error::Overflow`] is
    /// reported.
    pub fn credit(&mut self, holder: &Identity, tokens: &Amount) -> (outcome: Result<(), Error>)
        ensures
            outcome == credit_outcome(old(self)@, holder@, tokens@),
            final(self)@ == after_credit(old(self)@, holder@, tokens@),
    {
        proof {
            use_type_invariant(&*self);
            tokens.lemma_in_range();
        }
        let found = self.find(holder);
        let balance = match found {
            Some(i) => {
                proof {
                    lemma_account(self.accounts@, holder@, i as int);
                }
                match credited(&self.accounts[i].balance, tokens) {
                    Ok(sum) => sum,
                    Err(e) => {
                        return Err(e);
                    },
                }
            },
            None => *tokens,
        };
        let mut accounts: Vec<Account> = Vec::new();
        std::mem::swap(&mut accounts, &mut self.accounts);
        match found {
            Some(i) => {
                proof {
                    lemma_rebalance(accounts@, i as int, balance);
                }
                accounts[i].balance = balance;
            },
            None => {
                let account = Account { holder: *holder, balance };
                proof {
                    lemma_open(accounts@, account);
                }
                accounts.push(account);
            },
        }
        self.accounts = accounts;
        Ok(())
    }
}

} // verus!

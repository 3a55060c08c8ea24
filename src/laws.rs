use vstd::prelude::*;

use crate::error::TokenError;
use crate::model::{
    AccountId, LedgerView, amount_of, effective_allowance, consume_outcome, transfer_outcome,
    transfer_from_outcome, burn_outcome, burn_from_outcome, mint_outcome,
};

verus! {

/// Sum of the balances of `accounts` in `m`.
pub open spec fn total_over(m: Map<AccountId, i128>, accounts: Set<AccountId>) -> int
    decreases accounts.len(),
{
    if accounts.finite() && accounts.len() > 0 {
        let a = accounts.choose();
        amount_of(m, a) + total_over(m, accounts.remove(a))
    } else {
        0
    }
}

/// Changing the entry of one account changes a total by the same difference
/// when the account is counted, and not at all when it is not.
proof fn lemma_total_update(m1: Map<AccountId, i128>, m2: Map<AccountId, i128>, k: AccountId, accounts: Set<AccountId>)
    requires
        accounts.finite(),
        forall|a: AccountId| a != k ==> amount_of(m1, a) == amount_of(m2, a),
    ensures
        total_over(m2, accounts) - total_over(m1, accounts) == if accounts.contains(k) {
            amount_of(m2, k) - amount_of(m1, k)
        } else {
            0
        },
    decreases accounts.len(),
{
    if accounts.len() > 0 {
        let a = accounts.choose();
        lemma_total_update(m1, m2, k, accounts.remove(a));
    }
}

/// Balances never go negative: in a well-formed ledger every account holds
/// zero or more.
pub proof fn lemma_balances_nonnegative(v: LedgerView, a: AccountId)
    requires
        v.wf(),
    ensures
        amount_of(v.balances, a) >= 0,
{
}

/// A transfer neither creates nor destroys value: over any finite set of
/// accounts that holds both parties the total is unchanged, and no other
/// account's balance moves.
pub proof fn lemma_transfer_conserves(
    v: LedgerView,
    signers: Seq<AccountId>,
    from: AccountId,
    to: AccountId,
    amount: int,
    accounts: Set<AccountId>,
)
    requires
        v.wf(),
        accounts.finite(),
        accounts.contains(from),
        accounts.contains(to),
        transfer_outcome(v, signers, from, to, amount) is Ok,
    ensures
        ({
            let w = transfer_outcome(v, signers, from, to, amount)->Ok_0;
            &&& total_over(w.balances, accounts) == total_over(v.balances, accounts)
            &&& forall|a: AccountId| a != from && a != to ==> amount_of(w.balances, a) == amount_of(v.balances, a)
        }),
{
    let mid = crate::model::debited(v.balances, from, amount);
    let w = transfer_outcome(v, signers, from, to, amount)->Ok_0;
    lemma_total_update(v.balances, mid, from, accounts);
    lemma_total_update(mid, w.balances, to, accounts);
}

/// A delegated transfer conserves value as a direct one does.
pub proof fn lemma_transfer_from_conserves(
    v: LedgerView,
    signers: Seq<AccountId>,
    ledger: u32,
    spender: AccountId,
    from: AccountId,
    to: AccountId,
    amount: int,
    accounts: Set<AccountId>,
)
    requires
        v.wf(),
        accounts.finite(),
        accounts.contains(from),
        accounts.contains(to),
        transfer_from_outcome(v, signers, ledger, spender, from, to, amount) is Ok,
    ensures
        ({
            let w = transfer_from_outcome(v, signers, ledger, spender, from, to, amount)->Ok_0;
            &&& total_over(w.balances, accounts) == total_over(v.balances, accounts)
            &&& forall|a: AccountId| a != from && a != to ==> amount_of(w.balances, a) == amount_of(v.balances, a)
        }),
{
    let mid = crate::model::debited(v.balances, from, amount);
    let w = transfer_from_outcome(v, signers, ledger, spender, from, to, amount)->Ok_0;
    lemma_total_update(v.balances, mid, from, accounts);
    lemma_total_update(mid, w.balances, to, accounts);
}

/// Minting raises the total over any finite set of accounts holding the
/// recipient by exactly the amount minted.
pub proof fn lemma_mint_adds(
    v: LedgerView,
    signers: Seq<AccountId>,
    to: AccountId,
    amount: int,
    accounts: Set<AccountId>,
)
    requires
        v.wf(),
        accounts.finite(),
        accounts.contains(to),
        mint_outcome(v, signers, to, amount) is Ok,
    ensures
        total_over(mint_outcome(v, signers, to, amount)->Ok_0.balances, accounts) == total_over(v.balances, accounts)
            + amount,
{
    let w = mint_outcome(v, signers, to, amount)->Ok_0;
    lemma_total_update(v.balances, w.balances, to, accounts);
}

/// Burning lowers the total over any finite set of accounts holding the
/// payer by exactly the amount burned.
pub proof fn lemma_burn_removes(
    v: LedgerView,
    signers: Seq<AccountId>,
    from: AccountId,
    amount: int,
    accounts: Set<AccountId>,
)
    requires
        v.wf(),
        accounts.finite(),
        accounts.contains(from),
        burn_outcome(v, signers, from, amount) is Ok,
    ensures
        total_over(burn_outcome(v, signers, from, amount)->Ok_0.balances, accounts) == total_over(v.balances, accounts)
            - amount,
{
    let w = burn_outcome(v, signers, from, amount)->Ok_0;
    lemma_total_update(v.balances, w.balances, from, accounts);
}

/// A delegated burn lowers the total as a direct one does.
pub proof fn lemma_burn_from_removes(
    v: LedgerView,
    signers: Seq<AccountId>,
    ledger: u32,
    spender: AccountId,
    from: AccountId,
    amount: int,
    accounts: Set<AccountId>,
)
    requires
        v.wf(),
        accounts.finite(),
        accounts.contains(from),
        burn_from_outcome(v, signers, ledger, spender, from, amount) is Ok,
    ensures
        total_over(burn_from_outcome(v, signers, ledger, spender, from, amount)->Ok_0.balances, accounts)
            == total_over(v.balances, accounts) - amount,
{
    let w = burn_from_outcome(v, signers, ledger, spender, from, amount)->Ok_0;
    lemma_total_update(v.balances, w.balances, from, accounts);
}

/// A transfer followed by the same transfer back, signed by the recipient,
/// always succeeds and leaves every balance as it was.
pub proof fn lemma_transfer_round_trip(
    v: LedgerView,
    signers: Seq<AccountId>,
    back_signers: Seq<AccountId>,
    from: AccountId,
    to: AccountId,
    amount: int,
)
    requires
        v.wf(),
        transfer_outcome(v, signers, from, to, amount) is Ok,
        back_signers.contains(to),
    ensures
        ({
            let w = transfer_outcome(v, signers, from, to, amount)->Ok_0;
            let back = transfer_outcome(w, back_signers, to, from, amount);
            &&& back is Ok
            &&& forall|a: AccountId| amount_of(back->Ok_0.balances, a) == amount_of(v.balances, a)
        }),
{
}

/// Using an allowance only lowers it and never below zero; asking for more
/// than is spendable fails and leaves the ledger as it was.
pub proof fn lemma_consume_decreases(
    v: LedgerView,
    owner: AccountId,
    spender: AccountId,
    amount: int,
    ledger: u32,
)
    requires
        v.wf(),
        amount >= 0,
    ensures
        ({
            let before = effective_allowance(v.allowances, owner, spender, ledger);
            match consume_outcome(v, owner, spender, amount, ledger) {
                Ok(w) => {
                    &&& amount <= before
                    &&& effective_allowance(w.allowances, owner, spender, ledger) == before - amount
                    &&& effective_allowance(w.allowances, owner, spender, ledger) >= 0
                    &&& w.balances == v.balances
                },
                Err(e) => e == TokenError::InsufficientAllowance && amount > before,
            }
        }),
{
}

} // verus!

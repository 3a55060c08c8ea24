use vstd::prelude::*;

use crate::error::TokenError;

verus! {

/// Identity of an account, a spender or an asset held by the pool.
pub type AccountId = u64;

/// Decimal precision, display name and symbol of the token.
pub struct MetadataView {
    pub decimal: u32,
    pub name: Seq<char>,
    pub symbol: Seq<char>,
}

/// A stored allowance: the amount left and the last ledger sequence before
/// which it may still be used.
#[derive(PartialEq, Eq, Structural, Debug, Clone, Copy)]
pub struct AllowanceValue {
    pub amount: i128,
    pub expiration_ledger: u32,
}

/// The whole state of a token ledger, as mathematical values.
pub struct LedgerView {
    pub admin: Option<AccountId>,
    pub metadata: Option<MetadataView>,
    pub balances: Map<AccountId, i128>,
    pub allowances: Map<(AccountId, AccountId), AllowanceValue>,
    pub authorized: Map<AccountId, bool>,
    pub assets: Map<AccountId, i128>,
    pub nav: i128,
}

/// The largest amount a ledger entry can store.
pub open spec fn max_amount() -> int {
    i128::MAX as int
}

/// Amount stored under `a`; an absent entry counts as zero.
pub open spec fn amount_of(m: Map<AccountId, i128>, a: AccountId) -> int {
    if m.contains_key(a) {
        m[a] as int
    } else {
        0
    }
}

/// Accounts without a flag are authorized.
pub open spec fn is_authorized(flags: Map<AccountId, bool>, a: AccountId) -> bool {
    !flags.contains_key(a) || flags[a]
}

/// The allowance that can be spent at ledger sequence `ledger`: zero when
/// absent, or when its expiration is at or before `ledger`.
pub open spec fn effective_allowance(
    allowances: Map<(AccountId, AccountId), AllowanceValue>,
    owner: AccountId,
    spender: AccountId,
    ledger: u32,
) -> int {
    if !allowances.contains_key((owner, spender)) {
        0
    } else if allowances[(owner, spender)].expiration_ledger <= ledger {
        0
    } else {
        allowances[(owner, spender)].amount as int
    }
}

/// `m` with `amount` added to the entry of `a`.
pub open spec fn credited(m: Map<AccountId, i128>, a: AccountId, amount: int) -> Map<AccountId, i128> {
    m.insert(a, (amount_of(m, a) + amount) as i128)
}

/// `m` with `amount` taken from the entry of `a`.
pub open spec fn debited(m: Map<AccountId, i128>, a: AccountId, amount: int) -> Map<AccountId, i128> {
    m.insert(a, (amount_of(m, a) - amount) as i128)
}

/// Every stored amount of the map is non-negative.
pub open spec fn all_nonnegative(m: Map<AccountId, i128>) -> bool {
    forall|a: AccountId| m.contains_key(a) ==> m[a] >= 0
}

impl LedgerView {
    /// The invariant of a ledger: no stored amount is negative, and metadata
    /// exists exactly when an administrator does, with at most 18 decimals.
    pub open spec fn wf(self) -> bool {
        &&& all_nonnegative(self.balances)
        &&& all_nonnegative(self.assets)
        &&& forall|k: (AccountId, AccountId)|
            self.allowances.contains_key(k) ==> #[trigger] self.allowances[k].amount >= 0
        &&& self.admin is Some <==> self.metadata is Some
        &&& self.metadata is Some ==> self.metadata->Some_0.decimal <= 18
    }

    pub open spec fn with_balances(self, m: Map<AccountId, i128>) -> LedgerView {
        LedgerView { balances: m, ..self }
    }

    pub open spec fn with_assets(self, m: Map<AccountId, i128>) -> LedgerView {
        LedgerView { assets: m, ..self }
    }

    pub open spec fn with_allowances(self, m: Map<(AccountId, AccountId), AllowanceValue>) -> LedgerView {
        LedgerView { allowances: m, ..self }
    }
}

/// Takes `amount` from the balance of `a`, which must be authorized and hold
/// enough.
pub open spec fn spend_outcome(v: LedgerView, a: AccountId, amount: int) -> Result<LedgerView, TokenError> {
    if !is_authorized(v.authorized, a) {
        Err(TokenError::NotAuthorized)
    } else if amount_of(v.balances, a) < amount {
        Err(TokenError::InsufficientBalance)
    } else {
        Ok(v.with_balances(debited(v.balances, a, amount)))
    }
}

/// Adds `amount` to the balance of `a`, which must be authorized and stay
/// within the range of an amount.
pub open spec fn receive_outcome(v: LedgerView, a: AccountId, amount: int) -> Result<LedgerView, TokenError> {
    if !is_authorized(v.authorized, a) {
        Err(TokenError::NotAuthorized)
    } else if amount_of(v.balances, a) + amount > max_amount() {
        Err(TokenError::Overflow)
    } else {
        Ok(v.with_balances(credited(v.balances, a, amount)))
    }
}

/// Uses `amount` of what `owner` allowed `spender`, at ledger sequence `ledger`.
pub open spec fn consume_outcome(
    v: LedgerView,
    owner: AccountId,
    spender: AccountId,
    amount: int,
    ledger: u32,
) -> Result<LedgerView, TokenError> {
    if effective_allowance(v.allowances, owner, spender, ledger) < amount {
        Err(TokenError::InsufficientAllowance)
    } else if amount > 0 {
        let old_value = v.allowances[(owner, spender)];
        Ok(v.with_allowances(v.allowances.insert(
            (owner, spender),
            AllowanceValue { amount: (old_value.amount - amount) as i128, ..old_value },
        )))
    } else {
        Ok(v)
    }
}

/// Checks that `id` signed the call and that `amount` is not negative, in
/// that order.
pub open spec fn precheck(signers: Seq<AccountId>, id: AccountId, amount: int) -> Option<TokenError> {
    if !signers.contains(id) {
        Some(TokenError::NotAuthorized)
    } else if amount < 0 {
        Some(TokenError::NegativeAmount)
    } else {
        None
    }
}

/// `from` signs; `amount` leaves `from` and reaches `to`.
pub open spec fn transfer_outcome(
    v: LedgerView,
    signers: Seq<AccountId>,
    from: AccountId,
    to: AccountId,
    amount: int,
) -> Result<LedgerView, TokenError> {
    if let Some(e) = precheck(signers, from, amount) {
        Err(e)
    } else {
        match spend_outcome(v, from, amount) {
            Err(e) => Err(e),
            Ok(v1) => receive_outcome(v1, to, amount),
        }
    }
}

/// `spender` signs; the allowance of `from` to `spender` is used first,
/// then `amount` leaves `from` and reaches `to`.
pub open spec fn transfer_from_outcome(
    v: LedgerView,
    signers: Seq<AccountId>,
    ledger: u32,
    spender: AccountId,
    from: AccountId,
    to: AccountId,
    amount: int,
) -> Result<LedgerView, TokenError> {
    if let Some(e) = precheck(signers, spender, amount) {
        Err(e)
    } else {
        match consume_outcome(v, from, spender, amount, ledger) {
            Err(e) => Err(e),
            Ok(v1) => match spend_outcome(v1, from, amount) {
                Err(e) => Err(e),
                Ok(v2) => receive_outcome(v2, to, amount),
            },
        }
    }
}

/// `from` signs; `amount` leaves `from` and the ledger.
pub open spec fn burn_outcome(
    v: LedgerView,
    signers: Seq<AccountId>,
    from: AccountId,
    amount: int,
) -> Result<LedgerView, TokenError> {
    if let Some(e) = precheck(signers, from, amount) {
        Err(e)
    } else {
        spend_outcome(v, from, amount)
    }
}

/// `spender` signs; the allowance is used, then `amount` leaves `from` and
/// the ledger.
pub open spec fn burn_from_outcome(
    v: LedgerView,
    signers: Seq<AccountId>,
    ledger: u32,
    spender: AccountId,
    from: AccountId,
    amount: int,
) -> Result<LedgerView, TokenError> {
    if let Some(e) = precheck(signers, spender, amount) {
        Err(e)
    } else {
        match consume_outcome(v, from, spender, amount, ledger) {
            Err(e) => Err(e),
            Ok(v1) => spend_outcome(v1, from, amount),
        }
    }
}

/// `from` signs; the allowance of the pair is replaced, whatever its
/// expiration.
pub open spec fn approve_outcome(
    v: LedgerView,
    signers: Seq<AccountId>,
    from: AccountId,
    spender: AccountId,
    amount: int,
    expiration_ledger: u32,
) -> Result<LedgerView, TokenError> {
    if let Some(e) = precheck(signers, from, amount) {
        Err(e)
    } else {
        Ok(v.with_allowances(v.allowances.insert(
            (from, spender),
            AllowanceValue { amount: amount as i128, expiration_ledger },
        )))
    }
}

/// The administrator must exist and have signed the call.
pub open spec fn admin_check(v: LedgerView, signers: Seq<AccountId>) -> Option<TokenError> {
    if v.admin is None {
        Some(TokenError::Uninitialized)
    } else if !signers.contains(v.admin->Some_0) {
        Some(TokenError::NotAuthorized)
    } else {
        None
    }
}

/// The administrator signs; `amount` new tokens reach `to`.
pub open spec fn mint_outcome(
    v: LedgerView,
    signers: Seq<AccountId>,
    to: AccountId,
    amount: int,
) -> Result<LedgerView, TokenError> {
    if let Some(e) = admin_check(v, signers) {
        Err(e)
    } else if amount < 0 {
        Err(TokenError::NegativeAmount)
    } else {
        receive_outcome(v, to, amount)
    }
}

/// Pool operations need the administrator's and the asset's signatures.
pub open spec fn pool_check(v: LedgerView, signers: Seq<AccountId>, asset: AccountId, amount: int) -> Option<TokenError> {
    if let Some(e) = admin_check(v, signers) {
        Some(e)
    } else {
        precheck(signers, asset, amount)
    }
}

/// Credits the pool holding of `asset`.
pub open spec fn add_token_outcome(
    v: LedgerView,
    signers: Seq<AccountId>,
    asset: AccountId,
    amount: int,
) -> Result<LedgerView, TokenError> {
    if let Some(e) = pool_check(v, signers, asset, amount) {
        Err(e)
    } else if amount_of(v.assets, asset) + amount > max_amount() {
        Err(TokenError::Overflow)
    } else {
        Ok(v.with_assets(credited(v.assets, asset, amount)))
    }
}

/// Debits the pool holding of `asset`, which must hold enough.
pub open spec fn remove_token_outcome(
    v: LedgerView,
    signers: Seq<AccountId>,
    asset: AccountId,
    amount: int,
) -> Result<LedgerView, TokenError> {
    if let Some(e) = pool_check(v, signers, asset, amount) {
        Err(e)
    } else if amount_of(v.assets, asset) < amount {
        Err(TokenError::InsufficientBalance)
    } else {
        Ok(v.with_assets(debited(v.assets, asset, amount)))
    }
}

/// `post` and `r` are what an operation whose outcome is `outcome` leaves:
/// the new state on success, the old state and the error on failure.
pub open spec fn applied(
    pre: LedgerView,
    post: LedgerView,
    r: Result<(), TokenError>,
    outcome: Result<LedgerView, TokenError>,
) -> bool {
    match outcome {
        Ok(v) => r is Ok && post == v,
        Err(e) => r == Err::<(), TokenError>(e) && post == pre,
    }
}

} // verus!

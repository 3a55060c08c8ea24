use vstd::prelude::*;

use std::collections::BTreeMap;

use crate::error::{check_nonnegative_amount, TokenError};
use crate::model::{
    AccountId, AllowanceValue, LedgerView, MetadataView, amount_of, applied, is_authorized,
    effective_allowance, spend_outcome, consume_outcome, transfer_outcome, transfer_from_outcome,
    burn_outcome, burn_from_outcome, approve_outcome, mint_outcome, add_token_outcome,
    remove_token_outcome, admin_check, max_amount,
};

verus! {

/// Descriptive fields written once, when the ledger is initialized.
pub struct TokenMetadata {
    pub decimal: u32,
    pub name: String,
    pub symbol: String,
}

/// A token ledger backed by a pool of index assets: balances, allowances
/// with expiry, authorization flags, an administrator and the pool holdings.
///
/// Every operation takes the identities that signed the call. Authorization
/// flags gate balances: paying out (`transfer`, `transfer_from`, `burn`,
/// `burn_from`) needs the payer to be authorized, and receiving (`transfer`,
/// `transfer_from`, `mint`) needs the recipient to be. A failed operation
/// changes nothing.
pub struct IndexToken {
    admin: Option<AccountId>,
    metadata: Option<TokenMetadata>,
    balances: BTreeMap<AccountId, i128>,
    allowances: BTreeMap<(AccountId, AccountId), AllowanceValue>,
    authorized: BTreeMap<AccountId, bool>,
    assets: BTreeMap<AccountId, i128>,
    nav: i128,
}

impl View for IndexToken {
    type V = LedgerView;

    closed spec fn view(&self) -> LedgerView {
        LedgerView {
            admin: self.admin,
            metadata: match self.metadata {
                Some(m) => Some(MetadataView { decimal: m.decimal, name: m.name@, symbol: m.symbol@ }),
                None => None,
            },
            balances: self.balances@,
            allowances: self.allowances@,
            authorized: self.authorized@,
            assets: self.assets@,
            nav: self.nav,
        }
    }
}

/// Whether `id` is among the identities that signed the call.
pub fn require_auth(signers: &[AccountId], id: AccountId) -> (r: bool)
    ensures
        r == signers@.contains(id),
{
    let mut i: usize = 0;
    while i < signers.len()
        invariant
            i <= signers@.len(),
            forall|j: int| 0 <= j < i ==> signers@[j] != id,
        decreases signers@.len() - i,
    {
        if signers[i] == id {
            return true;
        }
        i = i + 1;
    }
    false
}

fn read_map(m: &BTreeMap<AccountId, i128>, a: AccountId) -> (r: i128)
    ensures
        r == amount_of(m@, a),
{
    match m.get(&a) {
        Some(v) => *v,
        None => 0,
    }
}

impl IndexToken {
    pub open spec fn wf(&self) -> bool {
        self@.wf()
    }

    /// An empty ledger: no administrator, no metadata, no entries.
    pub fn new() -> (r: IndexToken)
        ensures
            r.wf(),
            r@.admin is None,
            r@.metadata is None,
            r@.balances.is_empty(),
            r@.allowances.is_empty(),
            r@.authorized.is_empty(),
            r@.assets.is_empty(),
            r@.nav == 0,
    {
        IndexToken {
            admin: None,
            metadata: None,
            balances: BTreeMap::new(),
            allowances: BTreeMap::new(),
            authorized: BTreeMap::new(),
            assets: BTreeMap::new(),
            nav: 0,
        }
    }

    /// Stores the administrator and the metadata, once.
    pub fn initialize(&mut self, admin: AccountId, decimal: u32, name: String, symbol: String) -> (r: Result<(), TokenError>)
        requires
            old(self).wf(),
        ensures
            final(self).wf(),
            old(self)@.admin is Some ==> r == Err::<(), TokenError>(TokenError::AlreadyInitialized),
            old(self)@.admin is None && decimal > 18 ==> r == Err::<(), TokenError>(TokenError::InvalidDecimal),
            r is Err ==> final(self)@ == old(self)@,
            r is Ok <==> old(self)@.admin is None && decimal <= 18,
            r is Ok ==> final(self)@ == (LedgerView {
                admin: Some(admin),
                metadata: Some(MetadataView { decimal, name: name@, symbol: symbol@ }),
                ..old(self)@
            }),
    {
        if self.admin.is_some() {
            return Err(TokenError::AlreadyInitialized);
        }
        if decimal > 18 {
            return Err(TokenError::InvalidDecimal);
        }
        self.admin = Some(admin);
        self.metadata = Some(TokenMetadata { decimal, name, symbol });
        Ok(())
    }

    /// The administrator, if the ledger was initialized.
    pub fn admin(&self) -> (r: Result<AccountId, TokenError>)
        ensures
            match self@.admin {
                Some(a) => r == Ok::<AccountId, TokenError>(a),
                None => r == Err::<AccountId, TokenError>(TokenError::Uninitialized),
            },
    {
        match self.admin {
            Some(a) => Ok(a),
            None => Err(TokenError::Uninitialized),
        }
    }

    pub fn balance(&self, id: AccountId) -> (r: i128)
        requires
            self.wf(),
        ensures
            r == amount_of(self@.balances, id),
            r >= 0,
    {
        read_map(&self.balances, id)
    }

    /// Whether `id` may hold and move tokens; accounts never flagged may.
    pub fn authorized(&self, id: AccountId) -> (r: bool)
        ensures
            r == is_authorized(self@.authorized, id),
    {
        match self.authorized.get(&id) {
            Some(f) => *f,
            None => true,
        }
    }

    /// Checks what `spend_outcome` asks and returns the new balance of `a`.
    fn check_spend(&self, a: AccountId, amount: i128) -> (r: Result<i128, TokenError>)
        requires
            self.wf(),
            amount >= 0,
        ensures
            match spend_outcome(self@, a, amount as int) {
                Ok(v) => r is Ok && v.balances == self@.balances.insert(a, r->Ok_0) && r->Ok_0 >= 0,
                Err(e) => r == Err::<i128, TokenError>(e),
            },
    {
        if !self.authorized(a) {
            return Err(TokenError::NotAuthorized);
        }
        let current = read_map(&self.balances, a);
        if current < amount {
            return Err(TokenError::InsufficientBalance);
        }
        Ok(current - amount)
    }

    /// Checks what `receive_outcome` asks, given that `current` is the
    /// balance of `a`, and returns its new balance.
    fn check_receive(&self, a: AccountId, current: i128, amount: i128) -> (r: Result<i128, TokenError>)
        requires
            current >= 0,
            amount >= 0,
        ensures
            !is_authorized(self@.authorized, a) ==> r == Err::<i128, TokenError>(TokenError::NotAuthorized),
            is_authorized(self@.authorized, a) && current + amount > max_amount()
                ==> r == Err::<i128, TokenError>(TokenError::Overflow),
            is_authorized(self@.authorized, a) && current + amount <= max_amount()
                ==> r == Ok::<i128, TokenError>((current + amount) as i128),
    {
        if !self.authorized(a) {
            return Err(TokenError::NotAuthorized);
        }
        if current > i128::MAX - amount {
            return Err(TokenError::Overflow);
        }
        Ok(current + amount)
    }

    /// Moves `amount` from `from` to `to`, signed by `from`.
    pub fn transfer(&mut self, signers: &[AccountId], from: AccountId, to: AccountId, amount: i128) -> (r: Result<(), TokenError>)
        requires
            old(self).wf(),
        ensures
            final(self).wf(),
            applied(old(self)@, final(self)@, r, transfer_outcome(old(self)@, signers@, from, to, amount as int)),
    {
        if !require_auth(signers, from) {
            return Err(TokenError::NotAuthorized);
        }
        if let Err(e) = check_nonnegative_amount(amount) {
            return Err(e);
        }
        let new_from = match self.check_spend(from, amount) {
            Ok(b) => b,
            Err(e) => return Err(e),
        };
        let to_before = if to == from { new_from } else { read_map(&self.balances, to) };
        let new_to = match self.check_receive(to, to_before, amount) {
            Ok(b) => b,
            Err(e) => return Err(e),
        };
        self.balances.insert(from, new_from);
        self.balances.insert(to, new_to);
        Ok(())
    }

    /// The allowance `from` granted `spender`, as spendable at ledger
    /// sequence `ledger`: zero once its expiration is reached.
    pub fn allowance(&self, from: AccountId, spender: AccountId, ledger: u32) -> (r: i128)
        requires
            self.wf(),
        ensures
            r == effective_allowance(self@.allowances, from, spender, ledger),
            r >= 0,
            self@.allowances.contains_key((from, spender))
                && self@.allowances[(from, spender)].expiration_ledger <= ledger ==> r == 0,
    {
        match self.allowances.get(&(from, spender)) {
            Some(v) => if v.expiration_ledger <= ledger {
                0
            } else {
                v.amount
            },
            None => 0,
        }
    }

    /// Checks what `consume_outcome` asks; on success returns the entry to
    /// store, if one changes.
    fn check_consume(&self, owner: AccountId, spender: AccountId, amount: i128, ledger: u32) -> (r: Result<Option<AllowanceValue>, TokenError>)
        requires
            self.wf(),
            amount >= 0,
        ensures
            match consume_outcome(self@, owner, spender, amount as int, ledger) {
                Ok(v) => r is Ok && match r->Ok_0 {
                    Some(w) => v.allowances == self@.allowances.insert((owner, spender), w) && w.amount >= 0,
                    None => v == self@,
                },
                Err(e) => r == Err::<Option<AllowanceValue>, TokenError>(e),
            },
    {
        let available = self.allowance(owner, spender, ledger);
        if available < amount {
            return Err(TokenError::InsufficientAllowance);
        }
        if amount > 0 {
            let stored = *self.allowances.get(&(owner, spender)).unwrap();
            Ok(Some(AllowanceValue { amount: stored.amount - amount, expiration_ledger: stored.expiration_ledger }))
        } else {
            Ok(None)
        }
    }

    /// Lets `spender` use `amount` of the balance of `from` until ledger
    /// sequence `expiration_ledger`, signed by `from`. Replaces any earlier
    /// allowance of the pair.
    pub fn approve(
        &mut self,
        signers: &[AccountId],
        from: AccountId,
        spender: AccountId,
        amount: i128,
        expiration_ledger: u32,
    ) -> (r: Result<(), TokenError>)
        requires
            old(self).wf(),
        ensures
            final(self).wf(),
            applied(old(self)@, final(self)@, r, approve_outcome(old(self)@, signers@, from, spender, amount as int, expiration_ledger)),
    {
        if !require_auth(signers, from) {
            return Err(TokenError::NotAuthorized);
        }
        if let Err(e) = check_nonnegative_amount(amount) {
            return Err(e);
        }
        self.allowances.insert((from, spender), AllowanceValue { amount, expiration_ledger });
        Ok(())
    }

    /// Moves `amount` from `from` to `to` on behalf of `spender`, signed by
    /// `spender` and paid from what `from` allowed it.
    pub fn transfer_from(
        &mut self,
        signers: &[AccountId],
        ledger: u32,
        spender: AccountId,
        from: AccountId,
        to: AccountId,
        amount: i128,
    ) -> (r: Result<(), TokenError>)
        requires
            old(self).wf(),
        ensures
            final(self).wf(),
            applied(old(self)@, final(self)@, r, transfer_from_outcome(old(self)@, signers@, ledger, spender, from, to, amount as int)),
    {
        if !require_auth(signers, spender) {
            return Err(TokenError::NotAuthorized);
        }
        if let Err(e) = check_nonnegative_amount(amount) {
            return Err(e);
        }
        let new_allowance = match self.check_consume(from, spender, amount, ledger) {
            Ok(w) => w,
            Err(e) => return Err(e),
        };
        let new_from = match self.check_spend(from, amount) {
            Ok(b) => b,
            Err(e) => return Err(e),
        };
        let to_before = if to == from { new_from } else { read_map(&self.balances, to) };
        let new_to = match self.check_receive(to, to_before, amount) {
            Ok(b) => b,
            Err(e) => return Err(e),
        };
        if let Some(w) = new_allowance {
            self.allowances.insert((from, spender), w);
        }
        self.balances.insert(from, new_from);
        self.balances.insert(to, new_to);
        Ok(())
    }

    /// Destroys `amount` of the balance of `from`, signed by `from`.
    pub fn burn(&mut self, signers: &[AccountId], from: AccountId, amount: i128) -> (r: Result<(), TokenError>)
        requires
            old(self).wf(),
        ensures
            final(self).wf(),
            applied(old(self)@, final(self)@, r, burn_outcome(old(self)@, signers@, from, amount as int)),
    {
        if !require_auth(signers, from) {
            return Err(TokenError::NotAuthorized);
        }
        if let Err(e) = check_nonnegative_amount(amount) {
            return Err(e);
        }
        let new_from = match self.check_spend(from, amount) {
            Ok(b) => b,
            Err(e) => return Err(e),
        };
        self.balances.insert(from, new_from);
        Ok(())
    }

    /// Destroys `amount` of the balance of `from` on behalf of `spender`,
    /// signed by `spender` and paid from what `from` allowed it.
    pub fn burn_from(
        &mut self,
        signers: &[AccountId],
        ledger: u32,
        spender: AccountId,
        from: AccountId,
        amount: i128,
    ) -> (r: Result<(), TokenError>)
        requires
            old(self).wf(),
        ensures
            final(self).wf(),
            applied(old(self)@, final(self)@, r, burn_from_outcome(old(self)@, signers@, ledger, spender, from, amount as int)),
    {
        if !require_auth(signers, spender) {
            return Err(TokenError::NotAuthorized);
        }
        if let Err(e) = check_nonnegative_amount(amount) {
            return Err(e);
        }
        let new_allowance = match self.check_consume(from, spender, amount, ledger) {
            Ok(w) => w,
            Err(e) => return Err(e),
        };
        let new_from = match self.check_spend(from, amount) {
            Ok(b) => b,
            Err(e) => return Err(e),
        };
        if let Some(w) = new_allowance {
            self.allowances.insert((from, spender), w);
        }
        self.balances.insert(from, new_from);
        Ok(())
    }

    /// Creates `amount` new tokens on the balance of `to`, signed by the
    /// administrator.
    pub fn mint(&mut self, signers: &[AccountId], to: AccountId, amount: i128) -> (r: Result<(), TokenError>)
        requires
            old(self).wf(),
        ensures
            final(self).wf(),
            applied(old(self)@, final(self)@, r, mint_outcome(old(self)@, signers@, to, amount as int)),
    {
        let admin = match self.admin {
            Some(a) => a,
            None => return Err(TokenError::Uninitialized),
        };
        if !require_auth(signers, admin) {
            return Err(TokenError::NotAuthorized);
        }
        if let Err(e) = check_nonnegative_amount(amount) {
            return Err(e);
        }
        let current = read_map(&self.balances, to);
        let new_to = match self.check_receive(to, current, amount) {
            Ok(b) => b,
            Err(e) => return Err(e),
        };
        self.balances.insert(to, new_to);
        Ok(())
    }

    /// Hands the administrator role to `new_admin`, signed by the current
    /// administrator.
    pub fn set_admin(&mut self, signers: &[AccountId], new_admin: AccountId) -> (r: Result<(), TokenError>)
        requires
            old(self).wf(),
        ensures
            final(self).wf(),
            applied(old(self)@, final(self)@, r, match admin_check(old(self)@, signers@) {
                Some(e) => Err(e),
                None => Ok(LedgerView { admin: Some(new_admin), ..old(self)@ }),
            }),
    {
        let admin = match self.admin {
            Some(a) => a,
            None => return Err(TokenError::Uninitialized),
        };
        if !require_auth(signers, admin) {
            return Err(TokenError::NotAuthorized);
        }
        self.admin = Some(new_admin);
        Ok(())
    }

    /// Sets whether `id` may hold and move tokens, signed by the
    /// administrator.
    pub fn set_authorized(&mut self, signers: &[AccountId], id: AccountId, authorize: bool) -> (r: Result<(), TokenError>)
        requires
            old(self).wf(),
        ensures
            final(self).wf(),
            applied(old(self)@, final(self)@, r, match admin_check(old(self)@, signers@) {
                Some(e) => Err(e),
                None => Ok(LedgerView { authorized: old(self)@.authorized.insert(id, authorize), ..old(self)@ }),
            }),
    {
        let admin = match self.admin {
            Some(a) => a,
            None => return Err(TokenError::Uninitialized),
        };
        if !require_auth(signers, admin) {
            return Err(TokenError::NotAuthorized);
        }
        self.authorized.insert(id, authorize);
        Ok(())
    }

    /// Adds `amount` of the asset `token_address` to the pool, signed by the
    /// administrator and by the asset.
    pub fn add_token(&mut self, signers: &[AccountId], token_address: AccountId, amount: i128) -> (r: Result<(), TokenError>)
        requires
            old(self).wf(),
        ensures
            final(self).wf(),
            applied(old(self)@, final(self)@, r, add_token_outcome(old(self)@, signers@, token_address, amount as int)),
    {
        let admin = match self.admin {
            Some(a) => a,
            None => return Err(TokenError::Uninitialized),
        };
        if !require_auth(signers, admin) || !require_auth(signers, token_address) {
            return Err(TokenError::NotAuthorized);
        }
        if let Err(e) = check_nonnegative_amount(amount) {
            return Err(e);
        }
        let current = read_map(&self.assets, token_address);
        if current > i128::MAX - amount {
            return Err(TokenError::Overflow);
        }
        self.assets.insert(token_address, current + amount);
        Ok(())
    }

    /// Takes `amount` of the asset `token_address` out of the pool, signed by
    /// the administrator and by the asset.
    pub fn remove_token(&mut self, signers: &[AccountId], token_address: AccountId, amount: i128) -> (r: Result<(), TokenError>)
        requires
            old(self).wf(),
        ensures
            final(self).wf(),
            applied(old(self)@, final(self)@, r, remove_token_outcome(old(self)@, signers@, token_address, amount as int)),
    {
        let admin = match self.admin {
            Some(a) => a,
            None => return Err(TokenError::Uninitialized),
        };
        if !require_auth(signers, admin) || !require_auth(signers, token_address) {
            return Err(TokenError::NotAuthorized);
        }
        if let Err(e) = check_nonnegative_amount(amount) {
            return Err(e);
        }
        let current = read_map(&self.assets, token_address);
        if current < amount {
            return Err(TokenError::InsufficientBalance);
        }
        self.assets.insert(token_address, current - amount);
        Ok(())
    }

    /// How much of the asset `token_address` the pool holds.
    pub fn get_token_balance(&self, token_address: AccountId) -> (r: i128)
        requires
            self.wf(),
        ensures
            r == amount_of(self@.assets, token_address),
            r >= 0,
    {
        read_map(&self.assets, token_address)
    }

    /// Records the net asset value supplied from outside, signed by the
    /// administrator.
    pub fn update_nav(&mut self, signers: &[AccountId], new_nav: i128) -> (r: Result<(), TokenError>)
        requires
            old(self).wf(),
        ensures
            final(self).wf(),
            applied(old(self)@, final(self)@, r, match admin_check(old(self)@, signers@) {
                Some(e) => Err(e),
                None => Ok(LedgerView { nav: new_nav, ..old(self)@ }),
            }),
    {
        let admin = match self.admin {
            Some(a) => a,
            None => return Err(TokenError::Uninitialized),
        };
        if !require_auth(signers, admin) {
            return Err(TokenError::NotAuthorized);
        }
        self.nav = new_nav;
        Ok(())
    }

    /// The last net asset value recorded; zero before any.
    pub fn get_nav(&self) -> (r: i128)
        ensures
            r == self@.nav,
    {
        self.nav
    }

    pub fn decimals(&self) -> (r: Result<u32, TokenError>)
        ensures
            match self@.metadata {
                Some(m) => r == Ok::<u32, TokenError>(m.decimal),
                None => r == Err::<u32, TokenError>(TokenError::Uninitialized),
            },
    {
        match &self.metadata {
            Some(m) => Ok(m.decimal),
            None => Err(TokenError::Uninitialized),
        }
    }

    pub fn name(&self) -> (r: Result<String, TokenError>)
        ensures
            match self@.metadata {
                Some(m) => r is Ok && r->Ok_0@ == m.name,
                None => r == Err::<String, TokenError>(TokenError::Uninitialized),
            },
    {
        match &self.metadata {
            Some(m) => Ok(m.name.clone()),
            None => Err(TokenError::Uninitialized),
        }
    }

    pub fn symbol(&self) -> (r: Result<String, TokenError>)
        ensures
            match self@.metadata {
                Some(m) => r is Ok && r->Ok_0@ == m.symbol,
                None => r == Err::<String, TokenError>(TokenError::Uninitialized),
            },
    {
        match &self.metadata {
            Some(m) => Ok(m.symbol.clone()),
            None => Err(TokenError::Uninitialized),
        }
    }

    /// The allowance entry stored for the pair, expired or not.
    pub fn stored_allowance(&self, from: AccountId, spender: AccountId) -> (r: Option<AllowanceValue>)
        ensures
            r == (if self@.allowances.contains_key((from, spender)) {
                Some(self@.allowances[(from, spender)])
            } else {
                None
            }),
    {
        match self.allowances.get(&(from, spender)) {
            Some(v) => Some(*v),
            None => None,
        }
    }

    /// Puts back a balance entry read from persistent storage.
    pub fn restore_balance(&mut self, id: AccountId, amount: i128) -> (r: Result<(), TokenError>)
        requires
            old(self).wf(),
        ensures
            final(self).wf(),
            applied(old(self)@, final(self)@, r, if amount < 0 {
                Err(TokenError::NegativeAmount)
            } else {
                Ok(old(self)@.with_balances(old(self)@.balances.insert(id, amount)))
            }),
    {
        if let Err(e) = check_nonnegative_amount(amount) {
            return Err(e);
        }
        self.balances.insert(id, amount);
        Ok(())
    }

    /// Puts back an allowance entry read from persistent storage.
    pub fn restore_allowance(&mut self, from: AccountId, spender: AccountId, value: AllowanceValue) -> (r: Result<(), TokenError>)
        requires
            old(self).wf(),
        ensures
            final(self).wf(),
            applied(old(self)@, final(self)@, r, if value.amount < 0 {
                Err(TokenError::NegativeAmount)
            } else {
                Ok(old(self)@.with_allowances(old(self)@.allowances.insert((from, spender), value)))
            }),
    {
        if let Err(e) = check_nonnegative_amount(value.amount) {
            return Err(e);
        }
        self.allowances.insert((from, spender), value);
        Ok(())
    }

    /// Puts back an authorization flag read from persistent storage.
    pub fn restore_authorized(&mut self, id: AccountId, authorize: bool)
        requires
            old(self).wf(),
        ensures
            final(self).wf(),
            final(self)@ == (LedgerView { authorized: old(self)@.authorized.insert(id, authorize), ..old(self)@ }),
    {
        self.authorized.insert(id, authorize);
    }

    /// Puts back a pool holding read from persistent storage.
    pub fn restore_token_balance(&mut self, token_address: AccountId, amount: i128) -> (r: Result<(), TokenError>)
        requires
            old(self).wf(),
        ensures
            final(self).wf(),
            applied(old(self)@, final(self)@, r, if amount < 0 {
                Err(TokenError::NegativeAmount)
            } else {
                Ok(old(self)@.with_assets(old(self)@.assets.insert(token_address, amount)))
            }),
    {
        if let Err(e) = check_nonnegative_amount(amount) {
            return Err(e);
        }
        self.assets.insert(token_address, amount);
        Ok(())
    }

    /// Puts back a net asset value read from persistent storage.
    pub fn restore_nav(&mut self, nav: i128)
        requires
            old(self).wf(),
        ensures
            final(self).wf(),
            final(self)@ == (LedgerView { nav, ..old(self)@ }),
    {
        self.nav = nav;
    }
}

} // verus!

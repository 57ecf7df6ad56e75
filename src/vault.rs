//! The escrow ledger: a balance per market, a pool of platform fees, and the
//! list of callers allowed to move funds.
//!
//! The ledger keeps `total_locked` equal to the sum of all market balances
//! plus the unclaimed fees after every operation. Currency itself moves
//! outside: an operation returns the event to publish, and a withdrawal or a
//! fee claim names the amount to transfer and to whom.
use vstd::prelude::*;
use crate::errors::Error;
use crate::events::{
    AdminTransferred, FeesClaimed, FeesCollected, FundsDeposited, FundsWithdrawn,
    MarketAuthorized, MarketRevoked, VaultPauseStatusChanged,
};
use crate::types::Address;
use crate::u256::{U256, add_sat, sub_sat, u256_max, lemma_u256_bounded};

verus! {

/// The vault balance of one market.
#[derive(Clone, Copy, Debug)]
pub struct MarketBalance {
    pub market_id: u64,
    pub balance: U256,
}

/// The sum of the balances in `entries`.
pub open spec fn sum_balances(entries: Seq<MarketBalance>) -> int
    decreases entries.len(),
{
    if entries.len() == 0 {
        0
    } else {
        sum_balances(entries.drop_last()) + entries.last().balance@
    }
}

/// Replacing one balance changes the sum by the difference.
proof fn lemma_sum_update(entries: Seq<MarketBalance>, i: int, e: MarketBalance)
    requires
        0 <= i < entries.len(),
    ensures
        sum_balances(entries.update(i, e)) == sum_balances(entries) - entries[i].balance@ + e.balance@,
    decreases entries.len(),
{
    let u = entries.update(i, e);
    if i == entries.len() - 1 {
        assert(u.drop_last() =~= entries.drop_last());
    } else {
        lemma_sum_update(entries.drop_last(), i, e);
        assert(u.drop_last() =~= entries.drop_last().update(i, e));
    }
}

/// No two entries are for the same market.
pub open spec fn ids_unique(entries: Seq<MarketBalance>) -> bool {
    forall|i: int, j: int| 0 <= i < j < entries.len() ==> entries[i].market_id != entries[j].market_id
}

/// The balance `entries` hold for `market_id`; 0 where it has no entry.
pub open spec fn balance_in(entries: Seq<MarketBalance>, market_id: u64) -> int {
    if exists|i: int| 0 <= i < entries.len() && entries[i].market_id == market_id {
        entries[choose|i: int| 0 <= i < entries.len() && entries[i].market_id == market_id].balance@
    } else {
        0
    }
}

/// With one entry per market, the balance of an entry's market is that entry's.
proof fn lemma_balance_at(entries: Seq<MarketBalance>, i: int)
    requires
        ids_unique(entries),
        0 <= i < entries.len(),
    ensures
        balance_in(entries, entries[i].market_id) == entries[i].balance@,
{
    let m = entries[i].market_id;
    let j = choose|j: int| 0 <= j < entries.len() && entries[j].market_id == m;
    if j < i {
        assert(entries[j].market_id != entries[i].market_id);
    } else if j > i {
        assert(entries[i].market_id != entries[j].market_id);
    }
}

/// The sum of balances is never negative.
proof fn lemma_sum_nonneg(entries: Seq<MarketBalance>)
    ensures
        sum_balances(entries) >= 0,
    decreases entries.len(),
{
    if entries.len() > 0 {
        lemma_sum_nonneg(entries.drop_last());
        lemma_u256_bounded(entries.last().balance);
    }
}

/// Each balance is at most the sum of all of them.
proof fn lemma_sum_bounds_each(entries: Seq<MarketBalance>, i: int)
    requires
        0 <= i < entries.len(),
    ensures
        0 <= entries[i].balance@ <= sum_balances(entries),
    decreases entries.len(),
{
    lemma_u256_bounded(entries[i].balance);
    lemma_u256_bounded(entries.last().balance);
    lemma_sum_nonneg(entries.drop_last());
    if i < entries.len() - 1 {
        assert(entries.drop_last()[i] == entries[i]);
        lemma_sum_bounds_each(entries.drop_last(), i);
    }
}

/// The escrow ledger shared by all markets.
pub struct Vault {
    admin: Address,
    paused: bool,
    balances: Vec<MarketBalance>,
    total_locked: U256,
    authorized: Vec<Address>,
    factory_contract: Option<Address>,
    platform_fees_collected: U256,
    fee_recipient: Address,
}

impl Vault {
    /// The ledger's invariant: one entry per market, the authorized list
    /// without repeats, and `total_locked` equal to all balances plus fees.
    pub closed spec fn wf(&self) -> bool {
        &&& ids_unique(self.balances@)
        &&& self.authorized@.no_duplicates()
        &&& self.total_locked@ == sum_balances(self.balances@) + self.platform_fees_collected@
    }

    /// The balance held for `market_id`; 0 for a market never credited.
    pub closed spec fn balance_of(&self, market_id: u64) -> int {
        balance_in(self.balances@, market_id)
    }

    /// All funds in custody.
    pub closed spec fn total_locked_spec(&self) -> int {
        self.total_locked@
    }

    /// The fees collected and not yet claimed.
    pub closed spec fn fees_spec(&self) -> int {
        self.platform_fees_collected@
    }

    /// Whether `market` may move funds.
    pub closed spec fn is_authorized_spec(&self, market: Address) -> bool {
        self.authorized@.contains(market)
    }

    /// Whether `caller` may deposit, withdraw or collect fees: an authorized
    /// market, the factory, or the admin.
    pub open spec fn may_move_funds(&self, caller: Address) -> bool {
        ||| self.is_authorized_spec(caller)
        ||| self.factory_spec() == Some(caller)
        ||| self.admin_spec() == caller
    }

    pub closed spec fn admin_spec(&self) -> Address {
        self.admin
    }

    pub closed spec fn paused_spec(&self) -> bool {
        self.paused
    }

    pub closed spec fn fee_recipient_spec(&self) -> Address {
        self.fee_recipient
    }

    pub closed spec fn factory_spec(&self) -> Option<Address> {
        self.factory_contract
    }

    /// `other` holds the same balances, fees and settings as `self`, except
    /// that the balance of `market_id` is `balance`.
    pub open spec fn same_except_balance(&self, other: &Vault, market_id: u64, balance: int) -> bool {
        &&& forall|m: u64| m != market_id ==> other.balance_of(m) == self.balance_of(m)
        &&& other.balance_of(market_id) == balance
        &&& forall|a: Address| other.is_authorized_spec(a) == self.is_authorized_spec(a)
        &&& other.admin_spec() == self.admin_spec()
        &&& other.paused_spec() == self.paused_spec()
        &&& other.factory_spec() == self.factory_spec()
        &&& other.fee_recipient_spec() == self.fee_recipient_spec()
    }

    /// `other` holds the same funds as `self`.
    pub open spec fn same_funds(&self, other: &Vault) -> bool {
        &&& forall|m: u64| other.balance_of(m) == self.balance_of(m)
        &&& other.total_locked_spec() == self.total_locked_spec()
        &&& other.fees_spec() == self.fees_spec()
    }

    /// `other` holds the same balances, totals, fees and authorized markets.
    pub open spec fn same_ledger(&self, other: &Vault) -> bool {
        &&& self.same_funds(other)
        &&& forall|a: Address| other.is_authorized_spec(a) == self.is_authorized_spec(a)
    }

    /// The sum of all market balances.
    pub closed spec fn sum_of_balances(&self) -> int {
        sum_balances(self.balances@)
    }

    /// A vault with no funds, run by `admin`, whose fees go to `fee_recipient`.
    pub fn init(admin: Address, fee_recipient: Address) -> (r: Vault)
        ensures
            r.wf(),
            r.admin_spec() == admin,
            r.fee_recipient_spec() == fee_recipient,
            !r.paused_spec(),
            r.total_locked_spec() == 0,
            r.fees_spec() == 0,
            r.factory_spec() is None,
            forall|m: u64| r.balance_of(m) == 0,
            forall|a: Address| !r.is_authorized_spec(a),
    {
        Vault {
            admin,
            paused: false,
            balances: Vec::new(),
            total_locked: U256::zero(),
            authorized: Vec::new(),
            factory_contract: None,
            platform_fees_collected: U256::zero(),
            fee_recipient,
        }
    }

    /// The index of the entry of `market_id`, if it has one.
    fn find_balance(&self, market_id: u64) -> (r: Option<usize>)
        requires
            self.wf(),
        ensures
            r matches Some(i) ==> i < self.balances@.len() && self.balances@[i as int].market_id == market_id
                && self.balance_of(market_id) == self.balances@[i as int].balance@,
            r is None ==> self.balance_of(market_id) == 0
                && forall|j: int| 0 <= j < self.balances@.len() ==> self.balances@[j].market_id != market_id,
    {
        let mut i: usize = 0;
        while i < self.balances.len()
            invariant
                i <= self.balances@.len(),
                ids_unique(self.balances@),
                forall|j: int| 0 <= j < i ==> self.balances@[j].market_id != market_id,
            decreases self.balances@.len() - i,
        {
            if self.balances[i].market_id == market_id {
                proof {
                    lemma_balance_at(self.balances@, i as int);
                }
                return Some(i);
            }
            i = i + 1;
        }
        None
    }

    /// The index of `market` in the authorized list, if it is there.
    fn find_authorized(&self, market: &Address) -> (r: Option<usize>)
        ensures
            r matches Some(i) ==> i < self.authorized@.len() && self.authorized@[i as int] == *market,
            r is None ==> !self.authorized@.contains(*market),
    {
        let mut i: usize = 0;
        while i < self.authorized.len()
            invariant
                i <= self.authorized@.len(),
                forall|j: int| 0 <= j < i ==> self.authorized@[j] != *market,
            decreases self.authorized@.len() - i,
        {
            if self.authorized[i].same(market) {
                return Some(i);
            }
            i = i + 1;
        }
        None
    }

    /// Sets the balance of `market_id` to `balance`, leaving every other
    /// balance, the fees and the settings as they were.
    fn set_balance(&mut self, market_id: u64, balance: U256)
        requires
            ids_unique(old(self).balances@),
        ensures
            old(self).same_except_balance(final(self), market_id, balance@),
            ids_unique(final(self).balances@),
            sum_balances(final(self).balances@) == sum_balances(old(self).balances@) - old(self).balance_of(market_id) + balance@,
            final(self).total_locked == old(self).total_locked,
            final(self).platform_fees_collected == old(self).platform_fees_collected,
            final(self).authorized == old(self).authorized,
    {
        let mut i: usize = 0;
        let entry = MarketBalance { market_id, balance };
        let mut found = false;
        while i < self.balances.len()
            invariant
                i <= self.balances@.len(),
                forall|j: int| 0 <= j < i ==> self.balances@[j].market_id != market_id,
                found ==> i < self.balances@.len() && self.balances@[i as int].market_id == market_id,
            ensures
                found ==> i < self.balances@.len() && self.balances@[i as int].market_id == market_id,
                !found ==> forall|j: int| 0 <= j < self.balances@.len() ==> self.balances@[j].market_id != market_id,
            decreases self.balances@.len() - i,
        {
            if self.balances[i].market_id == market_id {
                found = true;
                break;
            }
            i = i + 1;
        }
        let ghost before = self.balances@;
        if found {
            proof {
                lemma_balance_at(before, i as int);
                lemma_sum_update(before, i as int, entry);
            }
            self.balances.set(i, entry);
            proof {
                assert(self.balances@ == before.update(i as int, entry));
                assert(ids_unique(self.balances@));
                lemma_balance_at(self.balances@, i as int);
                assert forall|m: u64| m != market_id implies balance_in(self.balances@, m) == balance_in(before, m) by {
                    if exists|j: int| 0 <= j < before.len() && before[j].market_id == m {
                        let j = choose|j: int| 0 <= j < before.len() && before[j].market_id == m;
                        lemma_balance_at(before, j);
                        lemma_balance_at(self.balances@, j);
                    } else {
                        assert forall|j: int| 0 <= j < self.balances@.len() implies self.balances@[j].market_id != m by {
                            if j != i {
                                assert(self.balances@[j] == before[j]);
                            }
                        }
                    }
                }
            }
        } else {
            self.balances.push(entry);
            proof {
                assert(self.balances@.drop_last() =~= before);
                assert(ids_unique(self.balances@));
                lemma_balance_at(self.balances@, before.len() as int);
                assert forall|m: u64| m != market_id implies balance_in(self.balances@, m) == balance_in(before, m) by {
                    if exists|j: int| 0 <= j < before.len() && before[j].market_id == m {
                        let j = choose|j: int| 0 <= j < before.len() && before[j].market_id == m;
                        lemma_balance_at(before, j);
                        lemma_balance_at(self.balances@, j);
                    } else {
                        assert forall|j: int| 0 <= j < self.balances@.len() implies self.balances@[j].market_id != m by {
                            if j < before.len() {
                                assert(self.balances@[j] == before[j]);
                            }
                        }
                    }
                }
            }
        }
    }

    fn require_admin(&self, caller: &Address) -> (r: Result<(), Error>)
        ensures
            r is Ok <==> *caller == self.admin,
            r matches Err(e) ==> e == Error::NotAdmin,
    {
        if !caller.same(&self.admin) {
            return Err(Error::NotAdmin);
        }
        Ok(())
    }

    fn require_not_paused(&self) -> (r: Result<(), Error>)
        ensures
            r is Ok <==> !self.paused,
            r matches Err(e) ==> e == Error::VaultPaused,
    {
        if self.paused {
            return Err(Error::VaultPaused);
        }
        Ok(())
    }

    fn require_authorized_caller(&self, caller: &Address) -> (r: Result<(), Error>)
        ensures
            r is Ok <==> self.may_move_funds(*caller),
            r matches Err(e) ==> e == Error::UnauthorizedMarket,
    {
        if self.find_authorized(caller).is_some() {
            return Ok(());
        }
        if let Some(factory) = &self.factory_contract {
            if factory.same(caller) {
                return Ok(());
            }
        }
        if self.admin.same(caller) {
            return Ok(());
        }
        Err(Error::UnauthorizedMarket)
    }

    /// Credits `amount`, attached by `caller`, to `market_id`.
    ///
    /// Fails with `VaultPaused` while paused, `UnauthorizedMarket` for a
    /// caller that may not move funds, `ZeroAmount` for nothing attached, and
    /// `Overflow` where the custody total would pass the largest `U256`.
    pub fn deposit(&mut self, caller: Address, market_id: u64, amount: U256) -> (r: Result<FundsDeposited, Error>)
        requires
            old(self).wf(),
        ensures
            final(self).wf(),
            r matches Err(e) ==> *final(self) == *old(self) && e == (
                if old(self).paused_spec() { Error::VaultPaused }
                else if !old(self).may_move_funds(caller) { Error::UnauthorizedMarket }
                else if amount@ == 0 { Error::ZeroAmount }
                else { Error::Overflow }),
            r is Ok <==> !old(self).paused_spec() && old(self).may_move_funds(caller) && amount@ > 0
                && old(self).total_locked_spec() + amount@ <= u256_max(),
            r matches Ok(ev) ==> ev.market_id == market_id && ev.amount == amount && ev.from_contract == caller,
            r is Ok ==> old(self).same_except_balance(final(self), market_id, old(self).balance_of(market_id) + amount@)
                && final(self).total_locked_spec() == old(self).total_locked_spec() + amount@
                && final(self).fees_spec() == old(self).fees_spec(),
    {
        self.require_not_paused()?;
        self.require_authorized_caller(&caller)?;
        if amount.is_zero() {
            return Err(Error::ZeroAmount);
        }
        let found = self.find_balance(market_id);
        let current = match found {
            Some(i) => self.balances[i].balance,
            None => U256::zero(),
        };
        proof {
            lemma_u256_bounded(self.total_locked);
        }
        let headroom = sub_sat(U256::max_value(), self.total_locked);
        if headroom.lt(&amount) {
            return Err(Error::Overflow);
        }
        let new_total = add_sat(self.total_locked, amount);
        proof {
            if let Some(i) = found {
                lemma_sum_bounds_each(self.balances@, i as int);
            }
            lemma_u256_bounded(self.platform_fees_collected);
        }
        self.set_balance(market_id, add_sat(current, amount));
        self.total_locked = new_total;
        Ok(FundsDeposited { market_id, amount, from_contract: caller })
    }

    /// Pays `amount` of `market_id`'s balance out to `recipient`; the caller
    /// transfers it.
    ///
    /// Fails with `VaultPaused` while paused, `UnauthorizedMarket` for a
    /// caller that may not move funds, `ZeroAmount` for a zero amount, and
    /// `ExceedsMarketBalance` above the market's balance.
    pub fn withdraw(&mut self, caller: Address, market_id: u64, recipient: Address, amount: U256) -> (r: Result<FundsWithdrawn, Error>)
        requires
            old(self).wf(),
        ensures
            final(self).wf(),
            r matches Err(e) ==> *final(self) == *old(self) && e == (
                if old(self).paused_spec() { Error::VaultPaused }
                else if !old(self).may_move_funds(caller) { Error::UnauthorizedMarket }
                else if amount@ == 0 { Error::ZeroAmount }
                else { Error::ExceedsMarketBalance }),
            r is Ok <==> !old(self).paused_spec() && old(self).may_move_funds(caller) && amount@ > 0
                && amount@ <= old(self).balance_of(market_id),
            r matches Ok(ev) ==> ev.market_id == market_id && ev.recipient == recipient && ev.amount == amount,
            r is Ok ==> old(self).same_except_balance(final(self), market_id, old(self).balance_of(market_id) - amount@)
                && final(self).total_locked_spec() == old(self).total_locked_spec() - amount@
                && final(self).fees_spec() == old(self).fees_spec(),
    {
        self.require_not_paused()?;
        self.require_authorized_caller(&caller)?;
        if amount.is_zero() {
            return Err(Error::ZeroAmount);
        }
        let found = self.find_balance(market_id);
        let current = match found {
            Some(i) => self.balances[i].balance,
            None => U256::zero(),
        };
        if current.lt(&amount) {
            return Err(Error::ExceedsMarketBalance);
        }
        proof {
            if let Some(i) = found {
                lemma_sum_bounds_each(self.balances@, i as int);
            }
            lemma_u256_bounded(self.platform_fees_collected);
        }
        self.set_balance(market_id, sub_sat(current, amount));
        self.total_locked = sub_sat(self.total_locked, amount);
        Ok(FundsWithdrawn { market_id, recipient, amount })
    }

    /// Moves `fee_amount` of `market_id`'s balance into the fee pool. A zero
    /// amount changes nothing and reports no event.
    ///
    /// Fails with `VaultPaused` while paused, `UnauthorizedMarket` for a
    /// caller that may not move funds, and `ExceedsMarketBalance` above the
    /// market's balance.
    pub fn collect_platform_fees(&mut self, caller: Address, market_id: u64, fee_amount: U256) -> (r: Result<Option<FeesCollected>, Error>)
        requires
            old(self).wf(),
        ensures
            final(self).wf(),
            r matches Err(e) ==> *final(self) == *old(self) && e == (
                if old(self).paused_spec() { Error::VaultPaused }
                else if !old(self).may_move_funds(caller) { Error::UnauthorizedMarket }
                else { Error::ExceedsMarketBalance }),
            r is Ok <==> !old(self).paused_spec() && old(self).may_move_funds(caller)
                && fee_amount@ <= old(self).balance_of(market_id),
            r matches Ok(None) ==> fee_amount@ == 0 && *final(self) == *old(self),
            r matches Ok(Some(ev)) ==> fee_amount@ > 0 && ev.market_id == market_id && ev.amount == fee_amount
                && old(self).same_except_balance(final(self), market_id, old(self).balance_of(market_id) - fee_amount@)
                && final(self).total_locked_spec() == old(self).total_locked_spec()
                && final(self).fees_spec() == old(self).fees_spec() + fee_amount@,
    {
        self.require_not_paused()?;
        self.require_authorized_caller(&caller)?;
        if fee_amount.is_zero() {
            return Ok(None);
        }
        let found = self.find_balance(market_id);
        let current = match found {
            Some(i) => self.balances[i].balance,
            None => U256::zero(),
        };
        if current.lt(&fee_amount) {
            return Err(Error::ExceedsMarketBalance);
        }
        proof {
            if let Some(i) = found {
                lemma_sum_bounds_each(self.balances@, i as int);
            }
            lemma_sum_nonneg(self.balances@);
            lemma_u256_bounded(self.total_locked);
        }
        self.set_balance(market_id, sub_sat(current, fee_amount));
        self.platform_fees_collected = add_sat(self.platform_fees_collected, fee_amount);
        Ok(Some(FeesCollected { market_id, amount: fee_amount }))
    }

    /// Empties the fee pool; `caller`, the fee recipient, is paid its
    /// contents.
    ///
    /// Fails with `VaultPaused` while paused, `AccessDenied` for any caller
    /// but the fee recipient, and `NothingToClaim` for an empty pool.
    pub fn claim_platform_fees(&mut self, caller: Address) -> (r: Result<FeesClaimed, Error>)
        requires
            old(self).wf(),
        ensures
            final(self).wf(),
            r matches Err(e) ==> *final(self) == *old(self) && e == (
                if old(self).paused_spec() { Error::VaultPaused }
                else if caller != old(self).fee_recipient_spec() { Error::AccessDenied }
                else { Error::NothingToClaim }),
            r is Ok <==> !old(self).paused_spec() && caller == old(self).fee_recipient_spec() && old(self).fees_spec() > 0,
            r matches Ok(ev) ==> ev.recipient == caller && ev.amount@ == old(self).fees_spec()
                && final(self).fees_spec() == 0
                && final(self).total_locked_spec() == old(self).total_locked_spec() - old(self).fees_spec()
                && forall|m: u64| final(self).balance_of(m) == old(self).balance_of(m),
            r is Ok ==> final(self).admin_spec() == old(self).admin_spec() && !final(self).paused_spec()
                && final(self).fee_recipient_spec() == old(self).fee_recipient_spec()
                && final(self).factory_spec() == old(self).factory_spec()
                && forall|a: Address| final(self).is_authorized_spec(a) == old(self).is_authorized_spec(a),
    {
        self.require_not_paused()?;
        if !caller.same(&self.fee_recipient) {
            return Err(Error::AccessDenied);
        }
        let amount = self.platform_fees_collected;
        if amount.is_zero() {
            return Err(Error::NothingToClaim);
        }
        proof {
            lemma_sum_nonneg(self.balances@);
        }
        self.platform_fees_collected = U256::zero();
        self.total_locked = sub_sat(self.total_locked, amount);
        Ok(FeesClaimed { recipient: caller, amount })
    }

    /// Lets `market` move funds. `caller` must be the admin or the factory.
    ///
    /// Fails with `AccessDenied` for any other caller and
    /// `MarketAlreadyAuthorized` for a market already on the list.
    pub fn authorize_market(&mut self, caller: Address, market: Address) -> (r: Result<MarketAuthorized, Error>)
        requires
            old(self).wf(),
        ensures
            final(self).wf(),
            r matches Err(e) ==> *final(self) == *old(self) && e == (
                if caller != old(self).admin_spec() && old(self).factory_spec() != Some(caller) { Error::AccessDenied }
                else { Error::MarketAlreadyAuthorized }),
            r is Ok <==> (caller == old(self).admin_spec() || old(self).factory_spec() == Some(caller))
                && !old(self).is_authorized_spec(market),
            r matches Ok(ev) ==> ev.market == market && final(self).is_authorized_spec(market)
                && (forall|a: Address| a != market ==> final(self).is_authorized_spec(a) == old(self).is_authorized_spec(a))
                && old(self).same_funds(final(self))
                && final(self).admin_spec() == old(self).admin_spec()
                && final(self).paused_spec() == old(self).paused_spec()
                && final(self).fee_recipient_spec() == old(self).fee_recipient_spec()
                && final(self).factory_spec() == old(self).factory_spec(),
    {
        let is_admin = caller.same(&self.admin);
        let is_factory = match &self.factory_contract {
            Some(f) => f.same(&caller),
            None => false,
        };
        if !is_admin && !is_factory {
            return Err(Error::AccessDenied);
        }
        if self.find_authorized(&market).is_some() {
            return Err(Error::MarketAlreadyAuthorized);
        }
        let ghost before = self.authorized@;
        self.authorized.push(market);
        proof {
            assert(self.authorized@ == before.push(market));
            assert(self.authorized@[before.len() as int] == market);
            assert forall|a: Address| a != market implies self.authorized@.contains(a) == before.contains(a) by {
                if before.contains(a) {
                    let j = choose|j: int| 0 <= j < before.len() && before[j] == a;
                    assert(self.authorized@[j] == a);
                }
            }
            assert(self.authorized@.no_duplicates());
        }
        Ok(MarketAuthorized { market })
    }

    /// Takes `market` off the list of those that may move funds. Only the
    /// admin may do this.
    ///
    /// Fails with `NotAdmin` for any other caller and `MarketNotAuthorized`
    /// for a market not on the list.
    pub fn revoke_market(&mut self, caller: Address, market: Address) -> (r: Result<MarketRevoked, Error>)
        requires
            old(self).wf(),
        ensures
            final(self).wf(),
            r matches Err(e) ==> *final(self) == *old(self) && e == (
                if caller != old(self).admin_spec() { Error::NotAdmin }
                else { Error::MarketNotAuthorized }),
            r is Ok <==> caller == old(self).admin_spec() && old(self).is_authorized_spec(market),
            r matches Ok(ev) ==> ev.market == market && !final(self).is_authorized_spec(market)
                && (forall|a: Address| a != market ==> final(self).is_authorized_spec(a) == old(self).is_authorized_spec(a))
                && old(self).same_funds(final(self))
                && final(self).admin_spec() == old(self).admin_spec()
                && final(self).paused_spec() == old(self).paused_spec()
                && final(self).fee_recipient_spec() == old(self).fee_recipient_spec()
                && final(self).factory_spec() == old(self).factory_spec(),
    {
        self.require_admin(&caller)?;
        let i = match self.find_authorized(&market) {
            Some(i) => i,
            None => {
                return Err(Error::MarketNotAuthorized);
            },
        };
        let ghost before = self.authorized@;
        self.authorized.remove(i);
        proof {
            assert(self.authorized@ == before.remove(i as int));
            assert forall|j: int| 0 <= j < self.authorized@.len() implies self.authorized@[j] != market by {
                if j < i {
                    assert(self.authorized@[j] == before[j]);
                } else {
                    assert(self.authorized@[j] == before[j + 1]);
                }
            }
            assert forall|a: Address| a != market implies self.authorized@.contains(a) == before.contains(a) by {
                if before.contains(a) {
                    let j = choose|j: int| 0 <= j < before.len() && before[j] == a;
                    if j < i {
                        assert(self.authorized@[j] == a);
                    } else {
                        assert(j != i);
                        assert(self.authorized@[j - 1] == a);
                    }
                }
                if self.authorized@.contains(a) {
                    let j = choose|j: int| 0 <= j < self.authorized@.len() && self.authorized@[j] == a;
                    if j < i {
                        assert(before[j] == a);
                    } else {
                        assert(before[j + 1] == a);
                    }
                }
            }
            assert forall|x: int, y: int| 0 <= x < self.authorized@.len() && 0 <= y < self.authorized@.len() && x != y
                implies self.authorized@[x] != self.authorized@[y] by {
                let bx = if x < i { x } else { x + 1 };
                let by_ = if y < i { y } else { y + 1 };
                assert(self.authorized@[x] == before[bx]);
                assert(self.authorized@[y] == before[by_]);
            }
        }
        Ok(MarketRevoked { market })
    }

    /// Records `factory` as the factory contract. Only the admin may do this.
    pub fn set_factory(&mut self, caller: Address, factory: Address) -> (r: Result<(), Error>)
        requires
            old(self).wf(),
        ensures
            final(self).wf(),
            r is Ok <==> caller == old(self).admin_spec(),
            r matches Err(e) ==> e == Error::NotAdmin && *final(self) == *old(self),
            r is Ok ==> final(self).factory_spec() == Some(factory) && old(self).same_ledger(final(self))
                && final(self).admin_spec() == old(self).admin_spec()
                && final(self).paused_spec() == old(self).paused_spec()
                && final(self).fee_recipient_spec() == old(self).fee_recipient_spec(),
    {
        self.require_admin(&caller)?;
        self.factory_contract = Some(factory);
        Ok(())
    }

    /// Stops deposits, withdrawals and fee movements. Only the admin may do this.
    pub fn pause(&mut self, caller: Address) -> (r: Result<VaultPauseStatusChanged, Error>)
        requires
            old(self).wf(),
        ensures
            final(self).wf(),
            r is Ok <==> caller == old(self).admin_spec(),
            r matches Err(e) ==> e == Error::NotAdmin && *final(self) == *old(self),
            r matches Ok(ev) ==> ev.paused && final(self).paused_spec() && old(self).same_ledger(final(self))
                && final(self).admin_spec() == old(self).admin_spec()
                && final(self).fee_recipient_spec() == old(self).fee_recipient_spec()
                && final(self).factory_spec() == old(self).factory_spec(),
    {
        self.require_admin(&caller)?;
        self.paused = true;
        Ok(VaultPauseStatusChanged { paused: true })
    }

    /// Resumes deposits, withdrawals and fee movements. Only the admin may do this.
    pub fn unpause(&mut self, caller: Address) -> (r: Result<VaultPauseStatusChanged, Error>)
        requires
            old(self).wf(),
        ensures
            final(self).wf(),
            r is Ok <==> caller == old(self).admin_spec(),
            r matches Err(e) ==> e == Error::NotAdmin && *final(self) == *old(self),
            r matches Ok(ev) ==> !ev.paused && !final(self).paused_spec() && old(self).same_ledger(final(self))
                && final(self).admin_spec() == old(self).admin_spec()
                && final(self).fee_recipient_spec() == old(self).fee_recipient_spec()
                && final(self).factory_spec() == old(self).factory_spec(),
    {
        self.require_admin(&caller)?;
        self.paused = false;
        Ok(VaultPauseStatusChanged { paused: false })
    }

    /// Hands the admin role to `new_admin`. Only the admin may do this.
    pub fn transfer_admin(&mut self, caller: Address, new_admin: Address) -> (r: Result<AdminTransferred, Error>)
        requires
            old(self).wf(),
        ensures
            final(self).wf(),
            r is Ok <==> caller == old(self).admin_spec(),
            r matches Err(e) ==> e == Error::NotAdmin && *final(self) == *old(self),
            r matches Ok(ev) ==> ev.previous_admin == old(self).admin_spec() && ev.new_admin == new_admin
                && final(self).admin_spec() == new_admin && old(self).same_ledger(final(self))
                && final(self).paused_spec() == old(self).paused_spec()
                && final(self).fee_recipient_spec() == old(self).fee_recipient_spec()
                && final(self).factory_spec() == old(self).factory_spec(),
    {
        self.require_admin(&caller)?;
        let previous_admin = self.admin;
        self.admin = new_admin;
        Ok(AdminTransferred { previous_admin, new_admin })
    }

    /// Sends future fee claims to `new_recipient`. Only the admin may do this.
    pub fn update_fee_recipient(&mut self, caller: Address, new_recipient: Address) -> (r: Result<(), Error>)
        requires
            old(self).wf(),
        ensures
            final(self).wf(),
            r is Ok <==> caller == old(self).admin_spec(),
            r matches Err(e) ==> e == Error::NotAdmin && *final(self) == *old(self),
            r is Ok ==> final(self).fee_recipient_spec() == new_recipient && old(self).same_ledger(final(self))
                && final(self).admin_spec() == old(self).admin_spec()
                && final(self).paused_spec() == old(self).paused_spec()
                && final(self).factory_spec() == old(self).factory_spec(),
    {
        self.require_admin(&caller)?;
        self.fee_recipient = new_recipient;
        Ok(())
    }

    /// The balance held for `market_id`.
    pub fn get_market_balance(&self, market_id: u64) -> (r: U256)
        requires
            self.wf(),
        ensures
            r@ == self.balance_of(market_id),
    {
        match self.find_balance(market_id) {
            Some(i) => self.balances[i].balance,
            None => U256::zero(),
        }
    }

    /// All funds in custody.
    pub fn get_total_locked(&self) -> (r: U256)
        ensures
            r@ == self.total_locked_spec(),
    {
        self.total_locked
    }

    /// The fees collected and not yet claimed.
    pub fn get_platform_fees(&self) -> (r: U256)
        ensures
            r@ == self.fees_spec(),
    {
        self.platform_fees_collected
    }

    /// Whether `market` may move funds.
    pub fn is_market_authorized(&self, market: Address) -> (r: bool)
        ensures
            r == self.is_authorized_spec(market),
    {
        self.find_authorized(&market).is_some()
    }

    /// Whether the vault is paused.
    pub fn is_paused(&self) -> (r: bool)
        ensures
            r == self.paused_spec(),
    {
        self.paused
    }

    /// The admin.
    pub fn get_admin(&self) -> (r: Address)
        ensures
            r == self.admin_spec(),
    {
        self.admin
    }

    /// Who the fee pool is paid to.
    pub fn get_fee_recipient(&self) -> (r: Address)
        ensures
            r == self.fee_recipient_spec(),
    {
        self.fee_recipient
    }

    /// The factory contract, once one is set.
    pub fn get_factory(&self) -> (r: Option<Address>)
        ensures
            r == self.factory_spec(),
    {
        self.factory_contract
    }
}

/// Custody balance: in every well-formed vault, and so after every operation,
/// the funds in custody are exactly the market balances plus the unclaimed fees.
pub proof fn lemma_custody_balanced(v: &Vault)
    requires
        v.wf(),
    ensures
        v.total_locked_spec() == v.sum_of_balances() + v.fees_spec(),
{
}

} // verus!

//! One prediction market: trading on the bonding curve, resolution, and
//! claims.
//!
//! The market is a state machine. Every operation takes the caller, the
//! block time and any attached value as arguments, and either fails with an
//! [`Error`], changing nothing, or applies all its effects and returns the
//! event to publish. Currency moves only after that, outside: the refund of a
//! purchase, the revenue of a sale, a payout or a refund named in the result
//! is transferred to the caller once the new state is in place, so no
//! transfer can observe a half-updated market.
//!
//! A market pays out on its own; it does not route funds through the
//! [`Vault`](crate::vault::Vault), which is a separate ledger.
use vstd::prelude::*;
use crate::errors::Error;
use crate::events::{
    MarketCancelled, MarketClosed, MarketResolved, RefundClaimed, ResolverUpdated, SharesPurchased,
    SharesSold, WinningsClaimed,
};
use crate::types::{
    Address, BondingCurveParams, MarketConfig, MarketInfo, MarketMetadata, MarketStatus, MarketType,
    UserPosition, lemma_cost_monotone, lemma_sat_absorbs, lemma_cost_additive, lemma_sell_reverses_buy,
    lemma_cost_fits_prefix,
};
use crate::u256::{U256, add_sat, div_floor, mul_sat, sat, sub_sat, u256_max, lemma_u256_bounded};

verus! {

/// The fee, in basis points `bps`, on `amount`: `amount * bps / 10_000`,
/// the product saturating and the quotient rounded down.
pub open spec fn fee_of(amount: int, bps: int) -> int {
    sat(amount * bps) / 10_000
}

/// `amount` less its fee.
pub open spec fn after_fee(amount: int, bps: int) -> int {
    sat(amount - fee_of(amount, bps))
}

/// `fee_of`, computed.
fn fee_on(amount: U256, bps: u64) -> (r: U256)
    ensures
        r@ == fee_of(amount@, bps as int),
{
    div_floor(mul_sat(amount, U256::from_u64(bps)), U256::from_u64(10_000))
}

/// One user's position in one outcome.
#[derive(Clone, Copy, Debug)]
pub struct PositionEntry {
    pub user: Address,
    pub position: UserPosition,
}

/// No two entries hold the same user's position in the same outcome.
pub open spec fn keys_unique(entries: Seq<PositionEntry>) -> bool {
    forall|i: int, j: int|
        0 <= i < j < entries.len() ==> !(entries[i].user == entries[j].user
            && entries[i].position.outcome_id == entries[j].position.outcome_id)
}

/// Whether `entries[i]` is `user`'s position in `outcome_id`.
pub open spec fn is_entry_for(entries: Seq<PositionEntry>, i: int, user: Address, outcome_id: u64) -> bool {
    0 <= i < entries.len() && entries[i].user == user && entries[i].position.outcome_id == outcome_id
}

/// The empty position in `outcome_id`.
pub open spec fn empty_position(outcome_id: u64) -> UserPosition {
    UserPosition {
        outcome_id,
        shares: U256 { w0: 0, w1: 0, w2: 0, w3: 0 },
        total_cost: U256 { w0: 0, w1: 0, w2: 0, w3: 0 },
        claimed: false,
    }
}

/// `user`'s position in `outcome_id` as `entries` record it; empty where
/// there is no entry.
pub open spec fn position_in(entries: Seq<PositionEntry>, user: Address, outcome_id: u64) -> UserPosition {
    if exists|i: int| is_entry_for(entries, i, user, outcome_id) {
        entries[choose|i: int| is_entry_for(entries, i, user, outcome_id)].position
    } else {
        empty_position(outcome_id)
    }
}

/// With unique keys, an entry's position is the one recorded for its key.
proof fn lemma_position_at(entries: Seq<PositionEntry>, i: int)
    requires
        keys_unique(entries),
        0 <= i < entries.len(),
    ensures
        position_in(entries, entries[i].user, entries[i].position.outcome_id) == entries[i].position,
{
    let u = entries[i].user;
    let o = entries[i].position.outcome_id;
    assert(is_entry_for(entries, i, u, o));
    let j = choose|j: int| is_entry_for(entries, j, u, o);
    if j < i {
        assert(!(entries[j].user == entries[i].user && entries[j].position.outcome_id == entries[i].position.outcome_id));
    } else if j > i {
        assert(!(entries[i].user == entries[j].user && entries[i].position.outcome_id == entries[j].position.outcome_id));
    }
}

/// The cost bases of all positions in `entries`, summed.
pub open spec fn entries_cost(entries: Seq<PositionEntry>) -> int
    decreases entries.len(),
{
    if entries.len() == 0 {
        0
    } else {
        entries_cost(entries.drop_last()) + entries.last().position.total_cost@
    }
}

/// Replacing one entry changes the summed cost basis by the difference.
proof fn lemma_entries_cost_update(entries: Seq<PositionEntry>, i: int, e: PositionEntry)
    requires
        0 <= i < entries.len(),
    ensures
        entries_cost(entries.update(i, e)) == entries_cost(entries) - entries[i].position.total_cost@ + e.position.total_cost@,
    decreases entries.len(),
{
    let u = entries.update(i, e);
    if i == entries.len() - 1 {
        assert(u.drop_last() =~= entries.drop_last());
    } else {
        lemma_entries_cost_update(entries.drop_last(), i, e);
        assert(u.drop_last() =~= entries.drop_last().update(i, e));
    }
}

/// What a market is created from.
#[derive(Clone, Debug)]
pub struct MarketInitArgs {
    pub market_id: u64,
    pub market_type: MarketType,
    pub question: String,
    pub outcome_names: Vec<String>,
    pub end_time: u64,
    pub resolution_source: String,
    pub category: String,
    pub creator: Address,
    pub admin: Address,
    pub resolver: Address,
    pub platform_fee_bps: u64,
    pub vault_contract: Address,
    pub factory_contract: Address,
    pub bonding_params: BondingCurveParams,
}

/// What a purchase hands back: the event to publish and the part of the
/// attached value to return to the buyer.
#[derive(Clone, Copy, Debug)]
pub struct Purchase {
    pub event: SharesPurchased,
    pub refund: U256,
}

/// A prediction market priced by a bonding curve.
pub struct Market {
    metadata: MarketMetadata,
    config: MarketConfig,
    initialized: bool,
    status: MarketStatus,
    winning_outcome: u64,
    total_liquidity: U256,
    bonding_params: BondingCurveParams,
    outcome_shares: Vec<U256>,
    outcome_liquidity: Vec<U256>,
    positions: Vec<PositionEntry>,
    participants: Vec<Address>,
    claimed: Vec<Address>,
}

impl Market {
    /// The market's invariant: one ledger entry per outcome, one position
    /// per user and outcome, positions only in existing outcomes.
    pub closed spec fn wf(&self) -> bool {
        &&& self.outcome_shares@.len() == self.metadata.outcome_count
        &&& self.outcome_liquidity@.len() == self.metadata.outcome_count
        &&& self.metadata.outcome_names@.len() == self.metadata.outcome_count
        &&& keys_unique(self.positions@)
        &&& forall|i: int| 0 <= i < self.positions@.len() ==> self.positions@[i].position.outcome_id < self.metadata.outcome_count
    }

    pub closed spec fn initialized_spec(&self) -> bool {
        self.initialized
    }

    pub closed spec fn status_spec(&self) -> MarketStatus {
        self.status
    }

    pub closed spec fn winning_spec(&self) -> u64 {
        self.winning_outcome
    }

    pub closed spec fn total_liquidity_spec(&self) -> int {
        self.total_liquidity@
    }

    pub closed spec fn params_spec(&self) -> BondingCurveParams {
        self.bonding_params
    }

    pub open spec fn outcome_count_spec(&self) -> int {
        self.metadata_spec().outcome_count as int
    }

    pub open spec fn market_id_spec(&self) -> u64 {
        self.metadata_spec().market_id
    }

    pub open spec fn end_time_spec(&self) -> u64 {
        self.metadata_spec().end_time
    }

    pub open spec fn admin_spec(&self) -> Address {
        self.config_spec().admin
    }

    pub open spec fn resolver_spec(&self) -> Address {
        self.config_spec().resolver
    }

    pub open spec fn fee_bps_spec(&self) -> int {
        self.config_spec().platform_fee_bps as int
    }

    /// Shares issued in outcome `o`; 0 for an outcome that does not exist.
    pub closed spec fn supply_of(&self, o: int) -> int {
        if 0 <= o < self.outcome_shares@.len() {
            self.outcome_shares@[o]@
        } else {
            0
        }
    }

    /// Value paid into outcome `o`, less what its sales paid out.
    pub closed spec fn liquidity_of(&self, o: int) -> int {
        if 0 <= o < self.outcome_liquidity@.len() {
            self.outcome_liquidity@[o]@
        } else {
            0
        }
    }

    /// `user`'s position in outcome `o`.
    pub closed spec fn position_of(&self, user: Address, o: u64) -> UserPosition {
        position_in(self.positions@, user, o)
    }

    /// The cost bases of all positions, summed.
    pub closed spec fn sum_costs(&self) -> int {
        entries_cost(self.positions@)
    }

    /// `after` is what a purchase by `user` in outcome `o` costing `c`
    /// leaves of `self`'s pool and cost bases: the total liquidity and the
    /// buyer's cost basis each grow by `c` (saturating), and the summed cost
    /// basis changes with the buyer's.
    pub open spec fn purchase_leaves(&self, after: &Market, user: Address, o: u64, c: int) -> bool {
        &&& after.total_liquidity_spec() == sat(self.total_liquidity_spec() + c)
        &&& after.position_of(user, o).total_cost@ == sat(self.position_of(user, o).total_cost@ + c)
        &&& after.sum_costs() == self.sum_costs() - self.position_of(user, o).total_cost@
            + after.position_of(user, o).total_cost@
    }

    /// Whether `user` has claimed winnings or a refund.
    pub closed spec fn has_claimed(&self, user: Address) -> bool {
        self.claimed@.contains(user)
    }

    /// Whether `user` has ever bought.
    pub closed spec fn has_participated(&self, user: Address) -> bool {
        self.participants@.contains(user)
    }

    /// Whether trading has ended at time `now`.
    pub open spec fn ended_at(&self, now: u64) -> bool {
        now >= self.end_time_spec()
    }

    /// `other` has the same description, settings and curve as `self`, and
    /// as many outcomes.
    pub open spec fn same_settings(&self, other: &Market) -> bool {
        &&& other.metadata_spec() == self.metadata_spec()
        &&& other.config_spec() == self.config_spec()
        &&& other.initialized_spec() == self.initialized_spec()
        &&& other.params_spec() == self.params_spec()
    }

    /// `other` has the same supply, liquidity, positions and participants as
    /// `self`.
    pub open spec fn same_books(&self, other: &Market) -> bool {
        &&& forall|o: int| other.supply_of(o) == self.supply_of(o) && other.liquidity_of(o) == self.liquidity_of(o)
        &&& other.total_liquidity_spec() == self.total_liquidity_spec()
        &&& forall|a: Address, o: u64| other.position_of(a, o) == self.position_of(a, o)
        &&& forall|a: Address| other.has_participated(a) == self.has_participated(a)
        &&& other.sum_costs() == self.sum_costs()
    }

    /// `other` differs from `self` at most in outcome `o`'s supply and
    /// liquidity, the total liquidity, and `user`'s position in `o`.
    pub open spec fn changes_only_trade(&self, other: &Market, user: Address, o: u64) -> bool {
        &&& self.same_settings(other)
        &&& other.status_spec() == self.status_spec()
        &&& other.winning_spec() == self.winning_spec()
        &&& forall|a: Address| other.has_claimed(a) == self.has_claimed(a)
        &&& forall|p: int| p != o ==> other.supply_of(p) == self.supply_of(p) && other.liquidity_of(p) == self.liquidity_of(p)
        &&& forall|a: Address, p: u64| !(a == user && p == o) ==> other.position_of(a, p) == self.position_of(a, p)
    }

    /// The most shares `budget` buys in outcome `o`: the largest count, up to
    /// `budget / initial_price + 1000`, whose cost stays within `budget`.
    pub open spec fn affordable_shares(&self, o: int, budget: int) -> int {
        let p = self.params_spec();
        let bound = sat(budget / p.initial_price@ + 1000);
        choose|n: int| p.is_max_affordable(self.supply_of(o), budget, bound, n)
    }

    /// The first check a purchase of outcome `o` with `attached` fails, if any.
    pub open spec fn buy_error(&self, now: u64, attached: int, o: u64, min_shares: int) -> Option<Error> {
        if !self.initialized_spec() {
            Some(Error::NotInitialized)
        } else if self.status_spec() != MarketStatus::Active {
            Some(Error::MarketNotActive)
        } else if self.ended_at(now) {
            Some(Error::MarketAlreadyEnded)
        } else if attached == 0 {
            Some(Error::ZeroAmount)
        } else if o >= self.outcome_count_spec() {
            Some(Error::InvalidOutcome)
        } else if self.params_spec().initial_price@ == 0 {
            Some(Error::DivisionByZero)
        } else if self.affordable_shares(o as int, attached) == 0 {
            Some(Error::InsufficientFunds)
        } else if self.affordable_shares(o as int, attached) < min_shares {
            Some(Error::SlippageExceeded)
        } else {
            None
        }
    }

    /// What a purchase of outcome `o` with `attached` costs.
    pub open spec fn buy_cost(&self, o: int, attached: int) -> int {
        self.params_spec().cost_spec(self.supply_of(o), self.affordable_shares(o, attached))
    }

    /// The first check a sale of `shares` of outcome `o` fails, if any.
    pub open spec fn sell_error(&self, user: Address, now: u64, o: u64, shares: int, min_receive: int) -> Option<Error> {
        if !self.initialized_spec() {
            Some(Error::NotInitialized)
        } else if self.status_spec() != MarketStatus::Active {
            Some(Error::MarketNotActive)
        } else if self.ended_at(now) {
            Some(Error::MarketAlreadyEnded)
        } else if shares == 0 {
            Some(Error::ZeroAmount)
        } else if o >= self.outcome_count_spec() {
            Some(Error::InvalidOutcome)
        } else if self.position_of(user, o).shares@ < shares {
            Some(Error::InsufficientShares)
        } else if self.sell_proceeds(o as int, shares) < min_receive {
            Some(Error::SlippageExceeded)
        } else {
            None
        }
    }

    /// What selling `shares` of outcome `o` pays before the fee.
    pub open spec fn sell_gross(&self, o: int, shares: int) -> int {
        self.params_spec().revenue_spec(self.supply_of(o), shares)
    }

    /// What selling `shares` of outcome `o` pays the seller, after the fee.
    pub open spec fn sell_proceeds(&self, o: int, shares: int) -> int {
        after_fee(self.sell_gross(o, shares), self.fee_bps_spec())
    }

    /// Pays out what the pool, less the fee, owes `user` for winning shares:
    /// `distributable * shares / total_winning_shares` (the product
    /// saturating, the quotient rounded down), 0 where no winning share exists.
    pub open spec fn payout_of(&self, user: Address) -> int {
        let w = self.winning_spec();
        let total_winning = self.supply_of(w as int);
        let distributable = after_fee(self.total_liquidity_spec(), self.fee_bps_spec());
        if total_winning == 0 {
            0
        } else {
            sat(distributable * self.position_of(user, w).shares@) / total_winning
        }
    }

    /// The first check a claim of winnings by `user` fails, if any.
    pub open spec fn claim_winnings_error(&self, user: Address) -> Option<Error> {
        if self.status_spec() != MarketStatus::Resolved {
            Some(Error::MarketNotResolved)
        } else if self.has_claimed(user) {
            Some(Error::AlreadyClaimed)
        } else if self.position_of(user, self.winning_spec()).shares@ == 0 {
            Some(Error::NoWinningPosition)
        } else if self.payout_of(user) == 0 {
            Some(Error::NothingToClaim)
        } else {
            None
        }
    }

    /// The cost bases of `user`'s positions in outcomes `0 .. n`, summed.
    pub open spec fn cost_basis_sum(&self, user: Address, n: int) -> int
        decreases n,
    {
        if n <= 0 {
            0
        } else {
            self.cost_basis_sum(user, n - 1) + self.position_of(user, (n - 1) as u64).total_cost@
        }
    }

    /// What a refund pays `user`: the cost bases of all its positions,
    /// summed with saturation.
    pub open spec fn refund_of(&self, user: Address) -> int {
        sat(self.cost_basis_sum(user, self.outcome_count_spec()))
    }

    /// The first check a claim of a refund by `user` fails, if any.
    pub open spec fn claim_refund_error(&self, user: Address) -> Option<Error> {
        if self.status_spec() != MarketStatus::Cancelled {
            Some(Error::MarketNotCancelled)
        } else if self.has_claimed(user) {
            Some(Error::AlreadyClaimed)
        } else if self.refund_of(user) == 0 {
            Some(Error::NoPositionToRefund)
        } else {
            None
        }
    }

    /// The first check resolving to outcome `w` fails, if any.
    pub open spec fn resolve_error(&self, caller: Address, now: u64, w: u64) -> Option<Error> {
        if !self.initialized_spec() {
            Some(Error::NotInitialized)
        } else if self.status_spec() == MarketStatus::Resolved {
            Some(Error::MarketAlreadyResolved)
        } else if self.status_spec() != MarketStatus::Closed && !self.ended_at(now) {
            Some(Error::MarketNotEnded)
        } else if caller != self.resolver_spec() && caller != self.admin_spec() {
            Some(Error::NotResolver)
        } else if self.status_spec() == MarketStatus::Cancelled {
            Some(Error::MarketCancelled)
        } else if w >= self.outcome_count_spec() {
            Some(Error::InvalidOutcome)
        } else {
            None
        }
    }

    /// The first check closing the market fails, if any.
    pub open spec fn close_error(&self, caller: Address) -> Option<Error> {
        if !self.initialized_spec() {
            Some(Error::NotInitialized)
        } else if caller != self.admin_spec() {
            Some(Error::NotAdmin)
        } else if self.status_spec() != MarketStatus::Active {
            Some(Error::MarketNotActive)
        } else {
            None
        }
    }

    /// The first check cancelling the market fails, if any.
    pub open spec fn cancel_error(&self, caller: Address) -> Option<Error> {
        if !self.initialized_spec() {
            Some(Error::NotInitialized)
        } else if caller != self.admin_spec() {
            Some(Error::NotAdmin)
        } else if self.status_spec() == MarketStatus::Resolved {
            Some(Error::MarketAlreadyResolved)
        } else {
            None
        }
    }

    /// `other` keeps the books, the claims and the settings of `self`; only
    /// the status and the winning outcome may differ.
    pub open spec fn changes_only_status(&self, other: &Market) -> bool {
        &&& self.same_settings(other)
        &&& self.same_books(other)
        &&& forall|a: Address| other.has_claimed(a) == self.has_claimed(a)
    }

    /// `other` is `self` with `user` marked as having claimed.
    pub open spec fn changes_only_claim(&self, other: &Market, user: Address) -> bool {
        &&& self.same_settings(other)
        &&& self.same_books(other)
        &&& other.status_spec() == self.status_spec()
        &&& other.winning_spec() == self.winning_spec()
        &&& other.has_claimed(user)
        &&& forall|a: Address| a != user ==> other.has_claimed(a) == self.has_claimed(a)
    }

    /// The exact price of outcome `o` inverted at scale 10^12; 0 at a zero price.
    pub open spec fn inverse_price(&self, o: int) -> int {
        let price = self.params_spec().price_spec(self.supply_of(o));
        if price == 0 {
            0
        } else {
            1_000_000_000_000int / price
        }
    }

    /// The inverse prices of outcomes `0 .. n`, summed.
    pub open spec fn inverse_sum(&self, n: int) -> int
        decreases n,
    {
        if n <= 0 {
            0
        } else {
            self.inverse_sum(n - 1) + self.inverse_price(n - 1)
        }
    }

    /// The implied odds of outcome `o` in basis points: its inverse price as
    /// a share of all inverse prices (saturating sum), 0 at a zero price.
    pub open spec fn odds_of(&self, o: int) -> int {
        let total = sat(self.inverse_sum(self.outcome_count_spec()));
        if self.params_spec().price_spec(self.supply_of(o)) == 0 || total == 0 {
            0
        } else {
            sat(self.inverse_price(o) * 10_000) / total
        }
    }

    /// The name of outcome `o`.
    pub open spec fn outcome_name_spec(&self, o: int) -> String {
        self.metadata_spec().outcome_names@[o]
    }

    /// The market's fixed description.
    pub closed spec fn metadata_spec(&self) -> MarketMetadata {
        self.metadata
    }

    /// The market's settings.
    pub closed spec fn config_spec(&self) -> MarketConfig {
        self.config
    }

    /// A market awaiting `init`.
    pub fn new() -> (r: Market)
        ensures
            r.wf(),
            !r.initialized_spec(),
    {
        Market {
            metadata: MarketMetadata {
                market_id: 0,
                market_type: MarketType::Binary,
                question: String::new(),
                outcome_names: Vec::new(),
                outcome_count: 0,
                creator: Address::zero(),
                created_at: 0,
                end_time: 0,
                resolution_source: String::new(),
                category: String::new(),
            },
            config: MarketConfig {
                admin: Address::zero(),
                resolver: Address::zero(),
                platform_fee_bps: 0,
                vault_contract: Address::zero(),
                factory_contract: Address::zero(),
            },
            initialized: false,
            status: MarketStatus::Active,
            winning_outcome: 0,
            total_liquidity: U256::zero(),
            bonding_params: BondingCurveParams { initial_price: U256::zero(), k_constant: U256::zero() },
            outcome_shares: Vec::new(),
            outcome_liquidity: Vec::new(),
            positions: Vec::new(),
            participants: Vec::new(),
            claimed: Vec::new(),
        }
    }

    /// Sets the market up from `args` at time `now`: every outcome starts
    /// with no shares and no liquidity, and trading is open.
    ///
    /// Fails with `AlreadyInitialized` on a second call and
    /// `InvalidOutcomeCount` where the number of outcome names does not suit
    /// the market type (binary: exactly 2; multiple choice: at least 2).
    pub fn init(&mut self, args: MarketInitArgs, now: u64) -> (r: Result<(), Error>)
        requires
            old(self).wf(),
        ensures
            final(self).wf(),
            r matches Err(e) ==> *final(self) == *old(self) && e == (
                if old(self).initialized_spec() { Error::AlreadyInitialized }
                else { Error::InvalidOutcomeCount }),
            r is Ok <==> !old(self).initialized_spec()
                && args.market_type.allows_outcome_count(args.outcome_names@.len() as int),
            r is Ok ==> final(self).initialized_spec()
                && final(self).status_spec() == MarketStatus::Active
                && final(self).outcome_count_spec() == args.outcome_names@.len()
                && final(self).market_id_spec() == args.market_id
                && final(self).end_time_spec() == args.end_time
                && final(self).admin_spec() == args.admin
                && final(self).resolver_spec() == args.resolver
                && final(self).fee_bps_spec() == args.platform_fee_bps
                && final(self).params_spec() == args.bonding_params
                && final(self).metadata_spec().market_type == args.market_type
                && final(self).metadata_spec().question == args.question
                && final(self).metadata_spec().outcome_names@ == args.outcome_names@
                && final(self).metadata_spec().creator == args.creator
                && final(self).metadata_spec().created_at == now
                && final(self).metadata_spec().resolution_source == args.resolution_source
                && final(self).metadata_spec().category == args.category
                && final(self).config_spec() == (MarketConfig {
                    admin: args.admin,
                    resolver: args.resolver,
                    platform_fee_bps: args.platform_fee_bps,
                    vault_contract: args.vault_contract,
                    factory_contract: args.factory_contract,
                })
                && final(self).total_liquidity_spec() == 0
                && final(self).sum_costs() == 0
                && (forall|o: int| final(self).supply_of(o) == 0 && final(self).liquidity_of(o) == 0)
                && (forall|a: Address, o: u64| final(self).position_of(a, o) == empty_position(o))
                && (forall|a: Address| !final(self).has_claimed(a) && !final(self).has_participated(a)),
    {
        if self.initialized {
            return Err(Error::AlreadyInitialized);
        }
        let count_usize = args.outcome_names.len();
        let outcome_count = count_usize as u64;
        let valid = match args.market_type {
            MarketType::Binary => outcome_count == 2,
            MarketType::MultipleChoice => outcome_count >= 2,
            MarketType::Compound => true,
        };
        if !valid {
            return Err(Error::InvalidOutcomeCount);
        }
        let mut shares: Vec<U256> = Vec::new();
        let mut liquidity: Vec<U256> = Vec::new();
        let mut i: usize = 0;
        while i < count_usize
            invariant
                i <= count_usize,
                shares@.len() == i,
                liquidity@.len() == i,
                forall|j: int| 0 <= j < i ==> shares@[j]@ == 0 && liquidity@[j]@ == 0,
            decreases count_usize - i,
        {
            shares.push(U256::zero());
            liquidity.push(U256::zero());
            i = i + 1;
        }
        self.metadata = MarketMetadata {
            market_id: args.market_id,
            market_type: args.market_type,
            question: args.question,
            outcome_names: args.outcome_names,
            outcome_count,
            creator: args.creator,
            created_at: now,
            end_time: args.end_time,
            resolution_source: args.resolution_source,
            category: args.category,
        };
        self.config = MarketConfig {
            admin: args.admin,
            resolver: args.resolver,
            platform_fee_bps: args.platform_fee_bps,
            vault_contract: args.vault_contract,
            factory_contract: args.factory_contract,
        };
        self.bonding_params = args.bonding_params;
        self.outcome_shares = shares;
        self.outcome_liquidity = liquidity;
        self.positions = Vec::new();
        self.participants = Vec::new();
        self.claimed = Vec::new();
        self.status = MarketStatus::Active;
        self.winning_outcome = 0;
        self.total_liquidity = U256::zero();
        self.initialized = true;
        Ok(())
    }

    /// The index of `user`'s entry for outcome `o`, if there is one.
    fn find_position(&self, user: &Address, o: u64) -> (r: Option<usize>)
        requires
            self.wf(),
        ensures
            r matches Some(i) ==> is_entry_for(self.positions@, i as int, *user, o)
                && self.position_of(*user, o) == self.positions@[i as int].position,
            r is None ==> forall|j: int| !is_entry_for(self.positions@, j, *user, o),
            r is None ==> self.position_of(*user, o) == empty_position(o),
    {
        let mut i: usize = 0;
        while i < self.positions.len()
            invariant
                i <= self.positions@.len(),
                keys_unique(self.positions@),
                forall|j: int| 0 <= j < i ==> !is_entry_for(self.positions@, j, *user, o),
            decreases self.positions@.len() - i,
        {
            if self.positions[i].position.outcome_id == o && self.positions[i].user.same(user) {
                proof {
                    lemma_position_at(self.positions@, i as int);
                }
                return Some(i);
            }
            i = i + 1;
        }
        None
    }

    /// `user`'s position in outcome `o`.
    fn position_for(&self, user: &Address, o: u64) -> (r: UserPosition)
        requires
            self.wf(),
        ensures
            r == self.position_of(*user, o),
    {
        match self.find_position(user, o) {
            Some(i) => self.positions[i].position,
            None => {
                let r = UserPosition::new(o);
                assert(r == empty_position(o));
                r
            },
        }
    }

    /// Records `pos` as `user`'s position in `pos.outcome_id`, leaving every
    /// other position as it was.
    fn store_position(&mut self, user: Address, pos: UserPosition)
        requires
            old(self).wf(),
            pos.outcome_id < old(self).outcome_count_spec(),
        ensures
            final(self).wf(),
            final(self).position_of(user, pos.outcome_id) == pos,
            forall|a: Address, p: u64| !(a == user && p == pos.outcome_id) ==> final(self).position_of(a, p) == old(self).position_of(a, p),
            final(self).sum_costs() == old(self).sum_costs() - old(self).position_of(user, pos.outcome_id).total_cost@ + pos.total_cost@,
            final(self).metadata == old(self).metadata,
            final(self).config == old(self).config,
            final(self).initialized == old(self).initialized,
            final(self).status == old(self).status,
            final(self).winning_outcome == old(self).winning_outcome,
            final(self).total_liquidity == old(self).total_liquidity,
            final(self).bonding_params == old(self).bonding_params,
            final(self).outcome_shares == old(self).outcome_shares,
            final(self).outcome_liquidity == old(self).outcome_liquidity,
            final(self).participants == old(self).participants,
            final(self).claimed == old(self).claimed,
    {
        let o = pos.outcome_id;
        let found = self.find_position(&user, o);
        let entry = PositionEntry { user, position: pos };
        let ghost before = self.positions@;
        match found {
            Some(i) => {
                proof {
                    lemma_entries_cost_update(before, i as int, entry);
                }
                self.positions.set(i, entry);
                proof {
                    assert(self.positions@ == before.update(i as int, entry));
                    assert(keys_unique(self.positions@));
                    lemma_position_at(self.positions@, i as int);
                    assert forall|a: Address, p: u64| !(a == user && p == o) implies
                        position_in(self.positions@, a, p) == position_in(before, a, p) by {
                        if exists|j: int| is_entry_for(before, j, a, p) {
                            let j = choose|j: int| is_entry_for(before, j, a, p);
                            lemma_position_at(before, j);
                            lemma_position_at(self.positions@, j);
                        } else {
                            assert forall|j: int| !is_entry_for(self.positions@, j, a, p) by {
                                if 0 <= j < self.positions@.len() && j != i {
                                    assert(self.positions@[j] == before[j]);
                                    assert(!is_entry_for(before, j, a, p));
                                } else if j == i {
                                    assert(self.positions@[j] == entry);
                                }
                            }
                        }
                    }
                }
            },
            None => {
                self.positions.push(entry);
                proof {
                    assert(self.positions@.drop_last() =~= before);
                    assert(self.positions@ == before.push(entry));
                    assert forall|j: int| 0 <= j < before.len() implies
                        !(self.positions@[j].user == user && self.positions@[j].position.outcome_id == o) by {
                        assert(!is_entry_for(before, j, user, o));
                        assert(self.positions@[j] == before[j]);
                    }
                    assert(keys_unique(self.positions@));
                    lemma_position_at(self.positions@, before.len() as int);
                    assert forall|a: Address, p: u64| !(a == user && p == o) implies
                        position_in(self.positions@, a, p) == position_in(before, a, p) by {
                        if exists|j: int| is_entry_for(before, j, a, p) {
                            let j = choose|j: int| is_entry_for(before, j, a, p);
                            lemma_position_at(before, j);
                            lemma_position_at(self.positions@, j);
                        } else {
                            assert forall|j: int| !is_entry_for(self.positions@, j, a, p) by {
                                if 0 <= j < before.len() {
                                    assert(self.positions@[j] == before[j]);
                                    assert(!is_entry_for(before, j, a, p));
                                } else if j == before.len() {
                                    assert(self.positions@[j] == entry);
                                }
                            }
                        }
                    }
                }
            },
        }
    }
    /// Shares issued in outcome `o`.
    fn supply_at(&self, o: u64) -> (r: U256)
        requires
            self.wf(),
            o < self.outcome_count_spec(),
        ensures
            r@ == self.supply_of(o as int),
    {
        let len = self.outcome_shares.len();
        assert(o < len);
        self.outcome_shares[o as usize]
    }

    /// Liquidity of outcome `o`.
    fn liquidity_at(&self, o: u64) -> (r: U256)
        requires
            self.wf(),
            o < self.outcome_count_spec(),
        ensures
            r@ == self.liquidity_of(o as int),
    {
        let len = self.outcome_liquidity.len();
        assert(o < len);
        self.outcome_liquidity[o as usize]
    }

    /// Sets outcome `o`'s supply and liquidity and the total liquidity.
    fn set_books(&mut self, o: u64, supply: U256, liquidity: U256, total: U256)
        requires
            old(self).wf(),
            o < old(self).outcome_count_spec(),
        ensures
            final(self).wf(),
            final(self).supply_of(o as int) == supply@,
            final(self).liquidity_of(o as int) == liquidity@,
            final(self).total_liquidity_spec() == total@,
            forall|p: int| p != o ==> final(self).supply_of(p) == old(self).supply_of(p) && final(self).liquidity_of(p) == old(self).liquidity_of(p),
            final(self).positions == old(self).positions,
            final(self).metadata == old(self).metadata,
            final(self).config == old(self).config,
            final(self).initialized == old(self).initialized,
            final(self).status == old(self).status,
            final(self).winning_outcome == old(self).winning_outcome,
            final(self).bonding_params == old(self).bonding_params,
            final(self).participants == old(self).participants,
            final(self).claimed == old(self).claimed,
    {
        let len = self.outcome_shares.len();
        assert(o < len);
        self.outcome_shares.set(o as usize, supply);
        self.outcome_liquidity.set(o as usize, liquidity);
        self.total_liquidity = total;
    }

    /// Applies a trade: outcome `o`'s supply and liquidity, the total
    /// liquidity and `user`'s position in `o` take the given values.
    fn record_trade(&mut self, user: Address, o: u64, supply: U256, liquidity: U256, total: U256, position: UserPosition)
        requires
            old(self).wf(),
            o < old(self).outcome_count_spec(),
            position.outcome_id == o,
        ensures
            final(self).wf(),
            final(self).supply_of(o as int) == supply@,
            final(self).liquidity_of(o as int) == liquidity@,
            final(self).total_liquidity_spec() == total@,
            final(self).position_of(user, o) == position,
            final(self).sum_costs() == old(self).sum_costs() - old(self).position_of(user, o).total_cost@ + position.total_cost@,
            old(self).changes_only_trade(final(self), user, o),
            final(self).market_id_spec() == old(self).market_id_spec(),
            final(self).participants == old(self).participants,
    {
        self.set_books(o, supply, liquidity, total);
        self.store_position(user, position);
    }

    /// Records that `user` has bought, if not yet recorded.
    fn note_participant(&mut self, user: Address)
        ensures
            final(self).has_participated(user),
            forall|a: Address| a != user ==> final(self).has_participated(a) == old(self).has_participated(a),
            final(self).metadata == old(self).metadata,
            final(self).config == old(self).config,
            final(self).initialized == old(self).initialized,
            final(self).status == old(self).status,
            final(self).winning_outcome == old(self).winning_outcome,
            final(self).total_liquidity == old(self).total_liquidity,
            final(self).bonding_params == old(self).bonding_params,
            final(self).outcome_shares == old(self).outcome_shares,
            final(self).outcome_liquidity == old(self).outcome_liquidity,
            final(self).positions == old(self).positions,
            final(self).claimed == old(self).claimed,
    {
        if !contains_address(&self.participants, &user) {
            self.participants.push(user);
        }
        proof {
            assert forall|a: Address| a != user implies
                self.participants@.contains(a) == old(self).participants@.contains(a) by {
                if self.participants@.contains(a) {
                    let j = choose|j: int| 0 <= j < self.participants@.len() && self.participants@[j] == a;
                    if j < old(self).participants@.len() {
                        assert(old(self).participants@[j] == a);
                    }
                }
                if old(self).participants@.contains(a) {
                    let j = choose|j: int| 0 <= j < old(self).participants@.len() && old(self).participants@[j] == a;
                    assert(self.participants@[j] == a);
                }
            }
            if !old(self).participants@.contains(user) {
                assert(self.participants@[self.participants@.len() - 1] == user);
            }
        }
    }

    /// Buys shares of `outcome_id` with `attached_value`, sent by `caller`
    /// at time `now`: as many as the value pays for on the curve, at least
    /// `min_shares`. What the shares do not cost is handed back as `refund`.
    ///
    /// Fails, in this order of checks, with `NotInitialized`,
    /// `MarketNotActive` outside `Active`, `MarketAlreadyEnded` from the end
    /// time on, `ZeroAmount` for nothing attached, `InvalidOutcome`,
    /// `DivisionByZero` for a curve with no base price, `InsufficientFunds`
    /// where not one share is affordable, and `SlippageExceeded` below
    /// `min_shares`.
    #[verifier::rlimit(40)]
    pub fn buy_shares(&mut self, caller: Address, now: u64, attached_value: U256, outcome_id: u64, min_shares: U256) -> (r: Result<Purchase, Error>)
        requires
            old(self).wf(),
        ensures
            final(self).wf(),
            r matches Err(e) ==> *final(self) == *old(self)
                && old(self).buy_error(now, attached_value@, outcome_id, min_shares@) == Some(e),
            r is Ok <==> old(self).buy_error(now, attached_value@, outcome_id, min_shares@) is None,
            r matches Ok(p) ==> {
                let o = outcome_id as int;
                let n = old(self).affordable_shares(o, attached_value@);
                let c = old(self).buy_cost(o, attached_value@);
                let before = old(self).position_of(caller, outcome_id);
                let after = final(self).position_of(caller, outcome_id);
                &&& p.event.user == caller
                &&& p.event.market_id == old(self).market_id_spec()
                &&& p.event.outcome_id == outcome_id
                &&& p.event.shares@ == n
                &&& p.event.cost@ == c
                &&& p.event.new_price@ == old(self).params_spec().price_spec(sat(old(self).supply_of(o) + n))
                &&& p.event.timestamp == now
                &&& c <= attached_value@
                &&& p.refund@ == attached_value@ - c
                &&& final(self).supply_of(o) == sat(old(self).supply_of(o) + n)
                &&& final(self).liquidity_of(o) == sat(old(self).liquidity_of(o) + c)
                &&& final(self).total_liquidity_spec() == sat(old(self).total_liquidity_spec() + c)
                &&& after.outcome_id == outcome_id
                &&& after.shares@ == sat(before.shares@ + n)
                &&& after.total_cost@ == sat(before.total_cost@ + c)
                &&& after.claimed == before.claimed
                &&& old(self).purchase_leaves(final(self), caller, outcome_id, c)
                &&& final(self).has_participated(caller)
                &&& forall|a: Address| a != caller ==> final(self).has_participated(a) == old(self).has_participated(a)
                &&& old(self).changes_only_trade(final(self), caller, outcome_id)
            },
    {
        if !self.initialized {
            return Err(Error::NotInitialized);
        }
        if self.status != MarketStatus::Active {
            return Err(Error::MarketNotActive);
        }
        if now >= self.metadata.end_time {
            return Err(Error::MarketAlreadyEnded);
        }
        if attached_value.is_zero() {
            return Err(Error::ZeroAmount);
        }
        if outcome_id >= self.metadata.outcome_count {
            return Err(Error::InvalidOutcome);
        }
        let params = self.bonding_params;
        if params.initial_price.is_zero() {
            return Err(Error::DivisionByZero);
        }
        let current_supply = self.supply_at(outcome_id);
        let shares = params.calculate_shares_for_cost(current_supply, attached_value);
        proof {
            let bound = sat(attached_value@ / params.initial_price@ + 1000);
            lemma_u256_bounded(current_supply);
            lemma_u256_bounded(shares);
            assert(self.params_spec() == params);
            assert(params.is_max_affordable(self.supply_of(outcome_id as int), attached_value@, bound, shares@));
            let m = self.affordable_shares(outcome_id as int, attached_value@);
            assert(params.is_max_affordable(current_supply@, attached_value@, bound, m));
            lemma_max_affordable_unique(params, current_supply@, attached_value@, bound, shares@, m);
        }
        if shares.is_zero() {
            return Err(Error::InsufficientFunds);
        }
        if shares.lt(&min_shares) {
            return Err(Error::SlippageExceeded);
        }
        let actual_cost = params.cost_to_buy(current_supply, shares);
        let refund = sub_sat(attached_value, actual_cost);
        let new_supply = add_sat(current_supply, shares);
        let current_liquidity = self.liquidity_at(outcome_id);
        let new_total = add_sat(self.total_liquidity, actual_cost);
        let mut position = self.position_for(&caller, outcome_id);
        position.add_shares(shares, actual_cost);
        self.record_trade(caller, outcome_id, new_supply, add_sat(current_liquidity, actual_cost), new_total, position);
        self.note_participant(caller);
        let new_price = params.price_at_supply(new_supply);
        Ok(Purchase {
            event: SharesPurchased {
                user: caller,
                market_id: self.metadata.market_id,
                outcome_id,
                shares,
                cost: actual_cost,
                new_price,
                timestamp: now,
            },
            refund,
        })
    }

    /// Sells `shares` of `caller`'s shares in `outcome_id` at time `now`,
    /// for at least `min_receive` after the fee. The fee stays in the pool;
    /// the seller is paid the event's `revenue`.
    ///
    /// Fails, in this order of checks, with `NotInitialized`,
    /// `MarketNotActive` outside `Active`, `MarketAlreadyEnded` from the end
    /// time on, `ZeroAmount` for no shares, `InvalidOutcome`,
    /// `InsufficientShares` beyond the caller's holding, and
    /// `SlippageExceeded` below `min_receive`.
    #[verifier::rlimit(40)]
    pub fn sell_shares(&mut self, caller: Address, now: u64, outcome_id: u64, shares: U256, min_receive: U256) -> (r: Result<SharesSold, Error>)
        requires
            old(self).wf(),
        ensures
            final(self).wf(),
            r matches Err(e) ==> *final(self) == *old(self)
                && old(self).sell_error(caller, now, outcome_id, shares@, min_receive@) == Some(e),
            r is Ok <==> old(self).sell_error(caller, now, outcome_id, shares@, min_receive@) is None,
            r matches Ok(ev) ==> {
                let o = outcome_id as int;
                let gross = old(self).sell_gross(o, shares@);
                let net = old(self).sell_proceeds(o, shares@);
                let before = old(self).position_of(caller, outcome_id);
                let after = final(self).position_of(caller, outcome_id);
                &&& ev.user == caller
                &&& ev.market_id == old(self).market_id_spec()
                &&& ev.outcome_id == outcome_id
                &&& ev.shares == shares
                &&& ev.revenue@ == net
                &&& ev.new_price@ == old(self).params_spec().price_spec(sat(old(self).supply_of(o) - shares@))
                &&& ev.timestamp == now
                &&& final(self).supply_of(o) == sat(old(self).supply_of(o) - shares@)
                &&& final(self).liquidity_of(o) == sat(old(self).liquidity_of(o) - gross)
                &&& final(self).total_liquidity_spec() == sat(old(self).total_liquidity_spec() - net)
                &&& after.outcome_id == outcome_id
                &&& after.shares@ == before.shares@ - shares@
                &&& after.total_cost@ == before.cost_after_sale(shares@)
                &&& after.claimed == before.claimed
                &&& forall|a: Address| final(self).has_participated(a) == old(self).has_participated(a)
                &&& old(self).changes_only_trade(final(self), caller, outcome_id)
            },
    {
        if !self.initialized {
            return Err(Error::NotInitialized);
        }
        if self.status != MarketStatus::Active {
            return Err(Error::MarketNotActive);
        }
        if now >= self.metadata.end_time {
            return Err(Error::MarketAlreadyEnded);
        }
        if shares.is_zero() {
            return Err(Error::ZeroAmount);
        }
        if outcome_id >= self.metadata.outcome_count {
            return Err(Error::InvalidOutcome);
        }
        let mut position = self.position_for(&caller, outcome_id);
        if position.shares.lt(&shares) {
            return Err(Error::InsufficientShares);
        }
        let params = self.bonding_params;
        let current_supply = self.supply_at(outcome_id);
        let gross_revenue = params.revenue_from_sell(current_supply, shares);
        let fee = fee_on(gross_revenue, self.config.platform_fee_bps);
        let net_revenue = sub_sat(gross_revenue, fee);
        if net_revenue.lt(&min_receive) {
            return Err(Error::SlippageExceeded);
        }
        proof {
            assert(self.sell_gross(outcome_id as int, shares@) == gross_revenue@);
            assert(self.sell_proceeds(outcome_id as int, shares@) == net_revenue@);
        }
        let new_supply = sub_sat(current_supply, shares);
        let current_liquidity = self.liquidity_at(outcome_id);
        let new_total = sub_sat(self.total_liquidity, net_revenue);
        position.remove_shares(shares, net_revenue);
        self.record_trade(caller, outcome_id, new_supply, sub_sat(current_liquidity, gross_revenue), new_total, position);
        let new_price = params.price_at_supply(new_supply);
        Ok(SharesSold {
            user: caller,
            market_id: self.metadata.market_id,
            outcome_id,
            shares,
            revenue: net_revenue,
            new_price,
            timestamp: now,
        })
    }
    /// Marks `user` as having claimed.
    fn mark_claimed(&mut self, user: Address)
        requires
            old(self).wf(),
        ensures
            final(self).wf(),
            old(self).changes_only_claim(final(self), user),
    {
        let ghost before = self.claimed@;
        self.claimed.push(user);
        proof {
            assert(self.claimed@[before.len() as int] == user);
            assert forall|a: Address| a != user implies self.claimed@.contains(a) == before.contains(a) by {
                if self.claimed@.contains(a) {
                    let j = choose|j: int| 0 <= j < self.claimed@.len() && self.claimed@[j] == a;
                    assert(before[j] == a);
                }
                if before.contains(a) {
                    let j = choose|j: int| 0 <= j < before.len() && before[j] == a;
                    assert(self.claimed@[j] == a);
                }
            }
        }
    }

    fn require_admin(&self, caller: &Address) -> (r: Result<(), Error>)
        ensures
            r is Ok <==> *caller == self.admin_spec(),
            r matches Err(e) ==> e == Error::NotAdmin,
    {
        if !caller.same(&self.config.admin) {
            return Err(Error::NotAdmin);
        }
        Ok(())
    }

    /// Settles the market on `winning_outcome_id`, at time `now`, citing
    /// `proof`. `caller` must be the resolver or the admin.
    ///
    /// Fails, in this order of checks, with `NotInitialized`,
    /// `MarketAlreadyResolved` on a second resolution, `MarketNotEnded` while
    /// the market is neither closed nor past its end time, `NotResolver`,
    /// `MarketCancelled`, and `InvalidOutcome`.
    pub fn resolve_market(&mut self, caller: Address, now: u64, winning_outcome_id: u64, proof: String) -> (r: Result<MarketResolved, Error>)
        requires
            old(self).wf(),
        ensures
            final(self).wf(),
            r matches Err(e) ==> *final(self) == *old(self)
                && old(self).resolve_error(caller, now, winning_outcome_id) == Some(e),
            r is Ok <==> old(self).resolve_error(caller, now, winning_outcome_id) is None,
            r matches Ok(ev) ==> ev.market_id == old(self).market_id_spec() && ev.winning_outcome == winning_outcome_id
                && ev.resolver == caller && ev.timestamp == now && ev.proof == proof
                && final(self).status_spec() == MarketStatus::Resolved
                && final(self).winning_spec() == winning_outcome_id
                && old(self).changes_only_status(final(self)),
    {
        if !self.initialized {
            return Err(Error::NotInitialized);
        }
        if self.status == MarketStatus::Resolved {
            return Err(Error::MarketAlreadyResolved);
        }
        let is_closed = self.status == MarketStatus::Closed;
        if !is_closed && now < self.metadata.end_time {
            return Err(Error::MarketNotEnded);
        }
        if !caller.same(&self.config.resolver) && !caller.same(&self.config.admin) {
            return Err(Error::NotResolver);
        }
        if self.status == MarketStatus::Cancelled {
            return Err(Error::MarketCancelled);
        }
        if winning_outcome_id >= self.metadata.outcome_count {
            return Err(Error::InvalidOutcome);
        }
        self.winning_outcome = winning_outcome_id;
        self.status = MarketStatus::Resolved;
        Ok(MarketResolved {
            market_id: self.metadata.market_id,
            winning_outcome: winning_outcome_id,
            resolver: caller,
            timestamp: now,
            proof,
        })
    }

    /// Pays `caller` its share of the pool for its winning shares, once.
    /// The pool less the fee is split in proportion to winning shares.
    ///
    /// Fails, in this order of checks, with `MarketNotResolved`,
    /// `AlreadyClaimed` on a second claim, `NoWinningPosition`, and
    /// `NothingToClaim` where the share rounds down to nothing.
    pub fn claim_winnings(&mut self, caller: Address, now: u64) -> (r: Result<WinningsClaimed, Error>)
        requires
            old(self).wf(),
        ensures
            final(self).wf(),
            r matches Err(e) ==> *final(self) == *old(self) && old(self).claim_winnings_error(caller) == Some(e),
            r is Ok <==> old(self).claim_winnings_error(caller) is None,
            r matches Ok(ev) ==> ev.user == caller && ev.market_id == old(self).market_id_spec()
                && ev.payout@ == old(self).payout_of(caller) && ev.timestamp == now
                && old(self).changes_only_claim(final(self), caller),
    {
        if self.status != MarketStatus::Resolved {
            return Err(Error::MarketNotResolved);
        }
        if contains_address(&self.claimed, &caller) {
            return Err(Error::AlreadyClaimed);
        }
        let winning_outcome_id = self.winning_outcome;
        let position = self.position_for(&caller, winning_outcome_id);
        if position.shares.is_zero() {
            return Err(Error::NoWinningPosition);
        }
        let total_winning_shares = if winning_outcome_id < self.metadata.outcome_count {
            self.supply_at(winning_outcome_id)
        } else {
            U256::zero()
        };
        let total_pool = self.total_liquidity;
        let total_fee = fee_on(total_pool, self.config.platform_fee_bps);
        let distributable_pool = sub_sat(total_pool, total_fee);
        let payout = if total_winning_shares.is_zero() {
            U256::zero()
        } else {
            div_floor(mul_sat(distributable_pool, position.shares), total_winning_shares)
        };
        if payout.is_zero() {
            return Err(Error::NothingToClaim);
        }
        self.mark_claimed(caller);
        Ok(WinningsClaimed { user: caller, market_id: self.metadata.market_id, payout, timestamp: now })
    }

    /// Pays `caller` back the cost basis of all its positions in a cancelled
    /// market, once.
    ///
    /// Fails, in this order of checks, with `MarketNotCancelled`,
    /// `AlreadyClaimed` on a second claim, and `NoPositionToRefund` where
    /// nothing is owed.
    pub fn claim_refund(&mut self, caller: Address, now: u64) -> (r: Result<RefundClaimed, Error>)
        requires
            old(self).wf(),
        ensures
            final(self).wf(),
            r matches Err(e) ==> *final(self) == *old(self) && old(self).claim_refund_error(caller) == Some(e),
            r is Ok <==> old(self).claim_refund_error(caller) is None,
            r matches Ok(ev) ==> ev.user == caller && ev.market_id == old(self).market_id_spec()
                && ev.amount@ == old(self).refund_of(caller) && ev.timestamp == now
                && old(self).changes_only_claim(final(self), caller),
    {
        if self.status != MarketStatus::Cancelled {
            return Err(Error::MarketNotCancelled);
        }
        if contains_address(&self.claimed, &caller) {
            return Err(Error::AlreadyClaimed);
        }
        let count = self.metadata.outcome_count;
        let mut total_refund = U256::zero();
        let mut o: u64 = 0;
        while o < count
            invariant
                self.wf(),
                count == self.outcome_count_spec(),
                o <= count,
                total_refund@ == sat(self.cost_basis_sum(caller, o as int)),
            decreases count - o,
        {
            let position = self.position_for(&caller, o);
            proof {
                lemma_u256_bounded(position.total_cost);
                lemma_cost_basis_nonneg(self, caller, o as int);
                lemma_sat_absorbs(self.cost_basis_sum(caller, o as int), position.total_cost@);
            }
            total_refund = add_sat(total_refund, position.total_cost);
            o = o + 1;
        }
        if total_refund.is_zero() {
            return Err(Error::NoPositionToRefund);
        }
        self.mark_claimed(caller);
        Ok(RefundClaimed { user: caller, market_id: self.metadata.market_id, amount: total_refund, timestamp: now })
    }

    /// Stops trading. Only the admin may do this, and only while active.
    ///
    /// Fails with `NotInitialized`, `NotAdmin`, then `MarketNotActive`.
    pub fn close_market(&mut self, caller: Address, now: u64) -> (r: Result<MarketClosed, Error>)
        requires
            old(self).wf(),
        ensures
            final(self).wf(),
            r matches Err(e) ==> *final(self) == *old(self) && old(self).close_error(caller) == Some(e),
            r is Ok <==> old(self).close_error(caller) is None,
            r matches Ok(ev) ==> ev.market_id == old(self).market_id_spec() && ev.timestamp == now
                && final(self).status_spec() == MarketStatus::Closed
                && final(self).winning_spec() == old(self).winning_spec()
                && old(self).changes_only_status(final(self)),
    {
        if !self.initialized {
            return Err(Error::NotInitialized);
        }
        self.require_admin(&caller)?;
        if self.status != MarketStatus::Active {
            return Err(Error::MarketNotActive);
        }
        self.status = MarketStatus::Closed;
        Ok(MarketClosed { market_id: self.metadata.market_id, timestamp: now })
    }

    /// Calls the market off, for `reason`, opening refunds. Only the admin
    /// may do this, and never once the market is resolved.
    ///
    /// Fails with `NotInitialized`, `NotAdmin`, then `MarketAlreadyResolved`.
    pub fn cancel_market(&mut self, caller: Address, now: u64, reason: String) -> (r: Result<MarketCancelled, Error>)
        requires
            old(self).wf(),
        ensures
            final(self).wf(),
            r matches Err(e) ==> *final(self) == *old(self) && old(self).cancel_error(caller) == Some(e),
            r is Ok <==> old(self).cancel_error(caller) is None,
            r matches Ok(ev) ==> ev.market_id == old(self).market_id_spec() && ev.reason == reason && ev.timestamp == now
                && final(self).status_spec() == MarketStatus::Cancelled
                && final(self).winning_spec() == old(self).winning_spec()
                && old(self).changes_only_status(final(self)),
    {
        if !self.initialized {
            return Err(Error::NotInitialized);
        }
        self.require_admin(&caller)?;
        if self.status == MarketStatus::Resolved {
            return Err(Error::MarketAlreadyResolved);
        }
        self.status = MarketStatus::Cancelled;
        Ok(MarketCancelled { market_id: self.metadata.market_id, reason, timestamp: now })
    }

    /// Names `new_resolver` as the resolver. Only the admin may do this.
    ///
    /// Fails with `NotInitialized`, then `NotAdmin`.
    pub fn update_resolver(&mut self, caller: Address, new_resolver: Address) -> (r: Result<ResolverUpdated, Error>)
        requires
            old(self).wf(),
        ensures
            final(self).wf(),
            r matches Err(e) ==> *final(self) == *old(self) && e == (
                if !old(self).initialized_spec() { Error::NotInitialized } else { Error::NotAdmin }),
            r is Ok <==> old(self).initialized_spec() && caller == old(self).admin_spec(),
            r matches Ok(ev) ==> ev.market_id == old(self).market_id_spec()
                && ev.previous_resolver == old(self).resolver_spec() && ev.new_resolver == new_resolver
                && final(self).config_spec() == (MarketConfig {
                    admin: old(self).config_spec().admin,
                    resolver: new_resolver,
                    platform_fee_bps: old(self).config_spec().platform_fee_bps,
                    vault_contract: old(self).config_spec().vault_contract,
                    factory_contract: old(self).config_spec().factory_contract,
                })
                && final(self).initialized_spec() == old(self).initialized_spec()
                && final(self).metadata_spec() == old(self).metadata_spec()
                && final(self).params_spec() == old(self).params_spec()
                && final(self).status_spec() == old(self).status_spec()
                && final(self).winning_spec() == old(self).winning_spec()
                && old(self).same_books(final(self))
                && forall|a: Address| final(self).has_claimed(a) == old(self).has_claimed(a),
    {
        if !self.initialized {
            return Err(Error::NotInitialized);
        }
        self.require_admin(&caller)?;
        let previous_resolver = self.config.resolver;
        self.config.resolver = new_resolver;
        Ok(ResolverUpdated { market_id: self.metadata.market_id, previous_resolver, new_resolver })
    }

    /// The current price of outcome `outcome_id`.
    pub fn get_current_price(&self, outcome_id: u64) -> (r: U256)
        requires
            self.wf(),
        ensures
            r@ == self.params_spec().price_spec(self.supply_of(outcome_id as int)),
    {
        let supply = self.get_outcome_shares(outcome_id);
        self.bonding_params.price_at_supply(supply)
    }

    /// What buying `shares` of outcome `outcome_id` costs now.
    pub fn calculate_buy_cost(&self, outcome_id: u64, shares: U256) -> (r: U256)
        requires
            self.wf(),
        ensures
            r@ == self.params_spec().cost_spec(self.supply_of(outcome_id as int), shares@),
    {
        let supply = self.get_outcome_shares(outcome_id);
        self.bonding_params.cost_to_buy(supply, shares)
    }

    /// What selling `shares` of outcome `outcome_id` pays now, after the fee.
    pub fn calculate_sell_revenue(&self, outcome_id: u64, shares: U256) -> (r: U256)
        requires
            self.wf(),
        ensures
            r@ == self.sell_proceeds(outcome_id as int, shares@),
    {
        let supply = self.get_outcome_shares(outcome_id);
        let gross = self.bonding_params.revenue_from_sell(supply, shares);
        let fee = fee_on(gross, self.config.platform_fee_bps);
        sub_sat(gross, fee)
    }

    /// `user`'s position in outcome `outcome_id`.
    pub fn get_user_position(&self, user: Address, outcome_id: u64) -> (r: UserPosition)
        requires
            self.wf(),
        ensures
            r == self.position_of(user, outcome_id),
    {
        self.position_for(&user, outcome_id)
    }

    /// Shares issued in outcome `outcome_id`; 0 for an unknown outcome.
    pub fn get_outcome_shares(&self, outcome_id: u64) -> (r: U256)
        requires
            self.wf(),
        ensures
            r@ == self.supply_of(outcome_id as int),
    {
        if outcome_id < self.metadata.outcome_count {
            self.supply_at(outcome_id)
        } else {
            U256::zero()
        }
    }

    /// Liquidity of outcome `outcome_id`; 0 for an unknown outcome.
    pub fn get_outcome_liquidity(&self, outcome_id: u64) -> (r: U256)
        requires
            self.wf(),
        ensures
            r@ == self.liquidity_of(outcome_id as int),
    {
        if outcome_id < self.metadata.outcome_count {
            self.liquidity_at(outcome_id)
        } else {
            U256::zero()
        }
    }

    /// How many outcomes the market has.
    pub fn get_outcome_count(&self) -> (r: u64)
        ensures
            r == self.outcome_count_spec(),
    {
        self.metadata.outcome_count
    }

    /// The name of outcome `outcome_id`, if there is such an outcome.
    pub fn get_outcome_name(&self, outcome_id: u64) -> (r: Option<String>)
        requires
            self.wf(),
        ensures
            r is Some <==> outcome_id < self.outcome_count_spec(),
            r matches Some(n) ==> n == self.outcome_name_spec(outcome_id as int),
    {
        let len = self.metadata.outcome_names.len();
        if outcome_id < self.metadata.outcome_count {
            assert(outcome_id < len);
            Some(self.metadata.outcome_names[outcome_id as usize].clone())
        } else {
            None
        }
    }

    /// The implied odds of every outcome, in basis points, as
    /// `(outcome_id, odds)` pairs in outcome order.
    pub fn get_outcome_odds(&self) -> (r: Vec<(u64, u64)>)
        requires
            self.wf(),
        ensures
            r@.len() == self.outcome_count_spec(),
            forall|i: int| #![trigger r@[i]] 0 <= i < r@.len() ==> r@[i].0 == i && r@[i].1 == self.odds_of(i),
    {
        let count = self.metadata.outcome_count;
        let scale = U256::from_u64(1_000_000_000_000);
        let mut total_inverse = U256::zero();
        let mut prices: Vec<U256> = Vec::new();
        let mut i: u64 = 0;
        while i < count
            invariant
                self.wf(),
                count == self.outcome_count_spec(),
                scale@ == 1_000_000_000_000,
                i <= count,
                prices@.len() == i,
                forall|j: int| 0 <= j < i ==> prices@[j]@ == self.params_spec().price_spec(self.supply_of(j)),
                total_inverse@ == sat(self.inverse_sum(i as int)),
            decreases count - i,
        {
            let price = self.get_current_price(i);
            proof {
                lemma_inverse_sum_bounds(self, i as int, 0);
            }
            if !price.is_zero() {
                let inverse = div_floor(scale, price);
                proof {
                    lemma_sat_absorbs(self.inverse_sum(i as int), inverse@);
                }
                total_inverse = add_sat(total_inverse, inverse);
            }
            prices.push(price);
            i = i + 1;
        }
        let mut odds: Vec<(u64, u64)> = Vec::new();
        let mut k: u64 = 0;
        while k < count
            invariant
                self.wf(),
                count == self.outcome_count_spec(),
                scale@ == 1_000_000_000_000,
                k <= count,
                prices@.len() == count,
                forall|j: int| 0 <= j < count ==> prices@[j]@ == self.params_spec().price_spec(self.supply_of(j)),
                total_inverse@ == sat(self.inverse_sum(count as int)),
                odds@.len() == k,
                forall|j: int| #![trigger odds@[j]] 0 <= j < k ==> odds@[j].0 == j && odds@[j].1 == self.odds_of(j),
            decreases count - k,
        {
            let price = prices[k as usize];
            let ghost before = odds@;
            if price.is_zero() || total_inverse.is_zero() {
                odds.push((k, 0));
                assert(self.odds_of(k as int) == 0);
            } else {
                let inverse = div_floor(scale, price);
                let probability = div_floor(mul_sat(inverse, U256::from_u64(10_000)), total_inverse);
                proof {
                    lemma_inverse_sum_bounds(self, count as int, k as int);
                    let t = total_inverse@;
                    let a = inverse@ * 10_000;
                    assert(inverse@ <= 1_000_000_000_000) by (nonlinear_arith)
                        requires
                            inverse@ == 1_000_000_000_000int / price@,
                            price@ >= 1,
                    ;
                    assert(inverse@ <= t);
                    assert(a / t <= 10_000) by (nonlinear_arith)
                        requires
                            a == inverse@ * 10_000,
                            0 <= inverse@ <= t,
                            t > 0,
                    ;
                }
                assert(inverse@ == self.inverse_price(k as int));
                assert(probability@ == self.odds_of(k as int));
                odds.push((k, probability.as_u64()));
            }
            assert(forall|j: int| 0 <= j < k ==> odds@[j] == before[j]);
            k = k + 1;
        }
        odds
    }

    /// The winning outcome, once the market is resolved.
    pub fn get_winning_outcome(&self) -> (r: Option<u64>)
        ensures
            r == (if self.status_spec() == MarketStatus::Resolved { Some(self.winning_spec()) } else { None::<u64> }),
    {
        if self.status == MarketStatus::Resolved {
            Some(self.winning_outcome)
        } else {
            None
        }
    }

    /// Whether trading has ended at time `now`.
    pub fn is_ended(&self, now: u64) -> (r: bool)
        ensures
            r == self.ended_at(now),
    {
        now >= self.metadata.end_time
    }

    /// Where the market stands.
    pub fn get_status(&self) -> (r: MarketStatus)
        ensures
            r == self.status_spec(),
    {
        self.status
    }

    /// The market's settings.
    pub fn get_config(&self) -> (r: MarketConfig)
        ensures
            r == self.config_spec(),
    {
        self.config
    }

    /// The market's fixed description.
    pub fn get_metadata(&self) -> (r: MarketMetadata)
        ensures
            same_metadata(r, self.metadata_spec()),
    {
        copy_metadata(&self.metadata)
    }

    /// A summary of the market.
    pub fn get_market_info(&self) -> (r: MarketInfo)
        ensures
            r.market_id == self.metadata_spec().market_id,
            r.market_type == self.metadata_spec().market_type,
            r.question == self.metadata_spec().question,
            r.creator == self.metadata_spec().creator,
            r.end_time == self.metadata_spec().end_time,
            r.status == self.status_spec(),
            r.total_liquidity@ == self.total_liquidity_spec(),
            r.category == self.metadata_spec().category,
            r.resolution_source == self.metadata_spec().resolution_source,
    {
        MarketInfo {
            market_id: self.metadata.market_id,
            market_type: self.metadata.market_type,
            question: self.metadata.question.clone(),
            creator: self.metadata.creator,
            end_time: self.metadata.end_time,
            status: self.status,
            total_liquidity: self.total_liquidity,
            category: self.metadata.category.clone(),
            resolution_source: self.metadata.resolution_source.clone(),
        }
    }
}

/// `a` and `b` describe the same market.
pub open spec fn same_metadata(a: MarketMetadata, b: MarketMetadata) -> bool {
    &&& a.market_id == b.market_id
    &&& a.market_type == b.market_type
    &&& a.question == b.question
    &&& a.outcome_names@ == b.outcome_names@
    &&& a.outcome_count == b.outcome_count
    &&& a.creator == b.creator
    &&& a.created_at == b.created_at
    &&& a.end_time == b.end_time
    &&& a.resolution_source == b.resolution_source
    &&& a.category == b.category
}

/// A copy of `m`.
fn copy_metadata(m: &MarketMetadata) -> (r: MarketMetadata)
    ensures
        same_metadata(r, *m),
{
    let mut names: Vec<String> = Vec::new();
    let mut i: usize = 0;
    while i < m.outcome_names.len()
        invariant
            i <= m.outcome_names@.len(),
            names@.len() == i,
            forall|j: int| 0 <= j < i ==> names@[j] == m.outcome_names@[j],
        decreases m.outcome_names@.len() - i,
    {
        names.push(m.outcome_names[i].clone());
        i = i + 1;
    }
    assert(names@ =~= m.outcome_names@);
    MarketMetadata {
        market_id: m.market_id,
        market_type: m.market_type,
        question: m.question.clone(),
        outcome_names: names,
        outcome_count: m.outcome_count,
        creator: m.creator,
        created_at: m.created_at,
        end_time: m.end_time,
        resolution_source: m.resolution_source.clone(),
        category: m.category.clone(),
    }
}

/// Whether `list` holds `a`.
fn contains_address(list: &Vec<Address>, a: &Address) -> (r: bool)
    ensures
        r == list@.contains(*a),
{
    let mut i: usize = 0;
    while i < list.len()
        invariant
            i <= list@.len(),
            forall|j: int| 0 <= j < i ==> list@[j] != *a,
        decreases list@.len() - i,
    {
        if list[i].same(a) {
            return true;
        }
        i = i + 1;
    }
    false
}

/// Inverse prices are never negative, and the sum over `0 .. n` is at
/// least each of its terms.
proof fn lemma_inverse_sum_bounds(m: &Market, n: int, o: int)
    ensures
        m.inverse_sum(n) >= 0,
        m.inverse_price(o) >= 0,
        0 <= o < n ==> m.inverse_price(o) <= m.inverse_sum(n),
    decreases n,
{
    let price = m.params_spec().price_spec(m.supply_of(o));
    if price != 0 {
        assert(1_000_000_000_000int / price >= 0) by (nonlinear_arith)
            requires
                price > 0,
        ;
    }
    if n > 0 {
        lemma_inverse_sum_bounds(m, n - 1, o);
        lemma_inverse_sum_bounds(m, n - 1, n - 1);
    }
}

/// A sum of cost bases is never negative.
proof fn lemma_cost_basis_nonneg(m: &Market, user: Address, n: int)
    ensures
        m.cost_basis_sum(user, n) >= 0,
    decreases n,
{
    if n > 0 {
        lemma_cost_basis_nonneg(m, user, n - 1);
        lemma_u256_bounded(m.position_of(user, (n - 1) as u64).total_cost);
    }
}

/// No value creation: from a freshly set up market, where the pool and the
/// positions' summed cost basis are both zero, a run of purchases keeps the
/// total liquidity equal to the summed cost basis of all positions, as long as
/// neither sum saturates. Each step is what `buy_shares` guarantees of its
/// result: `states[i + 1]` is what the `i`-th purchase, by `users[i]` in
/// `outcomes[i]` for `costs[i]`, leaves of `states[i]`.
pub proof fn lemma_no_value_creation(states: Seq<Market>, users: Seq<Address>, outcomes: Seq<u64>, costs: Seq<int>)
    requires
        states.len() == users.len() + 1,
        outcomes.len() == users.len(),
        costs.len() == users.len(),
        states[0].total_liquidity_spec() == 0,
        states[0].sum_costs() == 0,
        forall|i: int| 0 <= i < users.len() ==> states[i].purchase_leaves(&states[i + 1], users[i], outcomes[i], costs[i]),
        forall|i: int| 0 <= i < users.len() ==> costs[i] >= 0
            && states[i].total_liquidity_spec() + costs[i] <= u256_max()
            && states[i].position_of(users[i], outcomes[i]).total_cost@ + costs[i] <= u256_max(),
    ensures
        states.last().total_liquidity_spec() == states.last().sum_costs(),
    decreases users.len(),
{
    let n = users.len();
    if n > 0 {
        lemma_no_value_creation(states.drop_last(), users.drop_last(), outcomes.drop_last(), costs.drop_last());
        let a = states[n - 1];
        let b = states[n as int];
        assert(a.purchase_leaves(&b, users[n - 1], outcomes[n - 1], costs[n - 1]));
        lemma_u256_bounded(a.total_liquidity);
        lemma_u256_bounded(a.position_of(users[n - 1], outcomes[n - 1]).total_cost);
    }
}

/// An outcome's supply and liquidity lie in `[0, u256_max()]`.
proof fn lemma_books_bounded(m: &Market, o: int)
    ensures
        0 <= m.supply_of(o) <= u256_max(),
        0 <= m.liquidity_of(o) <= u256_max(),
{
    if 0 <= o < m.outcome_shares@.len() {
        lemma_u256_bounded(m.outcome_shares@[o]);
    }
    if 0 <= o < m.outcome_liquidity@.len() {
        lemma_u256_bounded(m.outcome_liquidity@[o]);
    }
}

/// The pool follows the curve under purchases: where outcome `o`'s
/// liquidity is what buying its whole supply from zero costs, a purchase of
/// `n` shares for their cost `c` (what `buy_shares` leaves: supply and
/// liquidity grown by `n` and `c`, the curve kept) keeps it so, as long as
/// the supply and that cost stay within a `U256`.
pub proof fn lemma_pool_follows_curve_on_purchase(before: &Market, after: &Market, o: u64, n: int, c: int)
    requires
        n >= 0,
        after.params_spec() == before.params_spec(),
        before.liquidity_of(o as int) == before.params_spec().cost_spec(0, before.supply_of(o as int)),
        before.supply_of(o as int) + n <= u256_max(),
        before.params_spec().cost_fits(0, before.supply_of(o as int) + n),
        c == before.params_spec().cost_spec(before.supply_of(o as int), n),
        after.supply_of(o as int) == sat(before.supply_of(o as int) + n),
        after.liquidity_of(o as int) == sat(before.liquidity_of(o as int) + c),
    ensures
        after.liquidity_of(o as int) == after.params_spec().cost_spec(0, after.supply_of(o as int)),
{
    let p = before.params_spec();
    let s = before.supply_of(o as int);
    lemma_books_bounded(before, o as int);
    lemma_cost_additive(p, 0, s, n);
}

/// The pool follows the curve under sales: where outcome `o`'s liquidity is
/// what buying its whole supply from zero costs, and that cost fits in a
/// `U256`, selling `shares` of the supply (what `sell_shares` leaves: supply
/// and liquidity reduced by `shares` and the gross revenue, the curve kept)
/// takes from the pool no more than it holds, so neither subtraction clamps,
/// and the liquidity left is again the cost of the supply left.
pub proof fn lemma_pool_follows_curve_on_sale(before: &Market, after: &Market, o: u64, shares: int)
    requires
        0 <= shares <= before.supply_of(o as int),
        after.params_spec() == before.params_spec(),
        before.liquidity_of(o as int) == before.params_spec().cost_spec(0, before.supply_of(o as int)),
        before.params_spec().cost_fits(0, before.supply_of(o as int)),
        after.supply_of(o as int) == sat(before.supply_of(o as int) - shares),
        after.liquidity_of(o as int) == sat(before.liquidity_of(o as int) - before.sell_gross(o as int, shares)),
    ensures
        before.liquidity_of(o as int) - before.sell_gross(o as int, shares) >= 0,
        after.supply_of(o as int) == before.supply_of(o as int) - shares,
        after.liquidity_of(o as int) == after.params_spec().cost_spec(0, after.supply_of(o as int)),
{
    let p = before.params_spec();
    let s = before.supply_of(o as int);
    lemma_books_bounded(before, o as int);
    lemma_cost_additive(p, 0, s - shares, shares);
    lemma_sell_reverses_buy(p, s, shares);
    lemma_cost_fits_prefix(p, s - shares, shares);
}

/// One-shot claims: after a successful claim of winnings, a second claim of
/// winnings by the same user fails with `AlreadyClaimed`, and so does a second
/// refund after a successful refund; no second payout is made. `after` is what
/// the first claim leaves of `before`, as the claim functions guarantee.
pub proof fn lemma_claims_are_one_shot(before: &Market, after: &Market, user: Address)
    requires
        before.changes_only_claim(after, user),
    ensures
        before.claim_winnings_error(user) is None ==> after.claim_winnings_error(user) == Some(Error::AlreadyClaimed),
        before.claim_refund_error(user) is None ==> after.claim_refund_error(user) == Some(Error::AlreadyClaimed),
{
}

/// State machine legality: purchases and sales fail outside `Active`;
/// resolution fails unless the market is closed or past its end time, and
/// fails on a market already resolved; cancellation fails on a resolved
/// market.
pub proof fn lemma_state_machine_legality(
    m: &Market,
    caller: Address,
    now: u64,
    outcome_id: u64,
    amount: int,
    limit: int,
    winning_outcome_id: u64,
)
    requires
        m.initialized_spec(),
    ensures
        m.status_spec() != MarketStatus::Active ==> m.buy_error(now, amount, outcome_id, limit) == Some(Error::MarketNotActive),
        m.status_spec() != MarketStatus::Active ==> m.sell_error(caller, now, outcome_id, amount, limit) == Some(Error::MarketNotActive),
        m.status_spec() != MarketStatus::Closed && !m.ended_at(now) ==> m.resolve_error(caller, now, winning_outcome_id) is Some,
        m.status_spec() != MarketStatus::Closed && m.status_spec() != MarketStatus::Resolved && !m.ended_at(now)
            ==> m.resolve_error(caller, now, winning_outcome_id) == Some(Error::MarketNotEnded),
        m.status_spec() == MarketStatus::Resolved ==> m.resolve_error(caller, now, winning_outcome_id) == Some(Error::MarketAlreadyResolved),
        m.status_spec() == MarketStatus::Resolved && caller == m.admin_spec() ==> m.cancel_error(caller) == Some(Error::MarketAlreadyResolved),
        m.status_spec() == MarketStatus::Resolved ==> m.cancel_error(caller) is Some,
{
}

/// Exactly one share count is the most a budget buys.
proof fn lemma_max_affordable_unique(p: BondingCurveParams, s: int, budget: int, bound: int, n: int, m: int)
    requires
        s >= 0,
        n >= 0,
        m >= 0,
        p.is_max_affordable(s, budget, bound, n),
        p.is_max_affordable(s, budget, bound, m),
    ensures
        n == m,
{
    if n < m {
        lemma_cost_monotone(p, s, n + 1, m);
    } else if m < n {
        lemma_cost_monotone(p, s, m + 1, n);
    }
}

} // verus!

//! Data shared by the market, the vault and the factory: identities, market
//! kinds and states, user positions, and the bonding curve that prices shares.
use vstd::prelude::*;
use crate::u256::{U256, sat, u256_max, add_sat, sub_sat, mul_sat, div_floor, lemma_u256_bounded};

verus! {

broadcast use vstd::array::group_array_axioms;

/// An identity on the ledger: an account or a contract package, each named
/// by a 32-byte hash.
#[derive(Clone, Copy, Debug)]
pub enum Address {
    Account([u8; 32]),
    Contract([u8; 32]),
}

/// Whether two 32-byte hashes are equal, byte by byte.
fn hashes_equal(a: &[u8; 32], b: &[u8; 32]) -> (r: bool)
    ensures
        r == (*a == *b),
{
    let mut i: usize = 0;
    while i < 32
        invariant
            0 <= i <= 32,
            forall|j: int| 0 <= j < i ==> a[j] == b[j],
        decreases 32 - i,
    {
        if a[i] != b[i] {
            return false;
        }
        i = i + 1;
    }
    assert(*a =~= *b);
    true
}

impl PartialEq for Address {
    fn eq(&self, other: &Address) -> (r: bool) {
        match self {
            Address::Account(a) => match other {
                Address::Account(b) => hashes_equal(a, b),
                Address::Contract(_) => false,
            },
            Address::Contract(a) => match other {
                Address::Account(_) => false,
                Address::Contract(b) => hashes_equal(a, b),
            },
        }
    }
}

impl vstd::std_specs::cmp::PartialEqSpecImpl for Address {
    open spec fn obeys_eq_spec() -> bool {
        true
    }

    open spec fn eq_spec(&self, other: &Address) -> bool {
        *self == *other
    }
}

impl Eq for Address {
}

impl Address {
    /// The all-zero account: what an unset address reads as.
    pub fn zero() -> (r: Address)
        ensures
            r matches Address::Account(h) && forall|i: int| 0 <= i < 32 ==> h[i] == 0,
    {
        Address::Account([0u8; 32])
    }

    /// Whether `self` and `other` name the same identity.
    pub fn same(&self, other: &Address) -> (r: bool)
        ensures
            r == (*self == *other),
    {
        *self == *other
    }
}

/// The kind of a prediction market.
#[derive(Clone, Copy, Debug, PartialEq, Eq, Structural)]
pub enum MarketType {
    /// Two outcomes, YES and NO.
    Binary,
    /// Two or more named outcomes.
    MultipleChoice,
    /// Any number of related sub-predictions.
    Compound,
}

impl MarketType {
    /// Whether a market of this kind may have `count` outcomes.
    pub open spec fn allows_outcome_count(self, count: int) -> bool {
        match self {
            MarketType::Binary => count == 2,
            MarketType::MultipleChoice => count >= 2,
            MarketType::Compound => true,
        }
    }
}

/// Where a market stands in its life: `Active -> Closed -> Resolved`, with
/// `Active | Closed -> Cancelled` beside it.
#[derive(Clone, Copy, Debug, PartialEq, Eq, Structural)]
pub enum MarketStatus {
    /// Trading is open.
    Active,
    /// Trading is closed, awaiting resolution.
    Closed,
    /// The outcome is known and winnings can be claimed.
    Resolved,
    /// The market was called off and refunds can be claimed.
    Cancelled,
}

/// One outcome of a market.
#[derive(Clone, Debug)]
pub struct Outcome {
    pub id: u64,
    pub name: String,
    pub total_shares: U256,
}

impl Outcome {
    /// An outcome with no shares issued.
    pub fn new(id: u64, name: String) -> (r: Outcome)
        ensures
            r.id == id,
            r.name == name,
            r.total_shares@ == 0,
    {
        Outcome { id, name, total_shares: U256::zero() }
    }
}

/// A user's holding in one outcome of a market.
#[derive(Clone, Copy, Debug, PartialEq, Eq, Structural)]
pub struct UserPosition {
    /// The outcome this position is in.
    pub outcome_id: u64,
    /// Shares held.
    pub shares: U256,
    /// What the shares cost, reduced in proportion as shares are sold.
    pub total_cost: U256,
    /// Kept for the record layout; claims are tracked per user by the market.
    pub claimed: bool,
}

impl UserPosition {
    /// Whether `self` is the empty position in `outcome_id`.
    pub open spec fn is_empty_in(self, outcome_id: u64) -> bool {
        &&& self.outcome_id == outcome_id
        &&& self.shares@ == 0
        &&& self.total_cost@ == 0
        &&& !self.claimed
    }

    /// The cost basis left after selling `sold` of `self.shares`: zero when
    /// nothing is left, otherwise the old basis less its share
    /// `total_cost * sold / shares` (the product saturating, the quotient
    /// rounded down).
    pub open spec fn cost_after_sale(self, sold: int) -> int {
        if self.shares@ == sold {
            0
        } else {
            sat(self.total_cost@ - sat(self.total_cost@ * sold) / self.shares@)
        }
    }

    /// An empty position in `outcome_id`.
    pub fn new(outcome_id: u64) -> (r: UserPosition)
        ensures
            r.is_empty_in(outcome_id),
    {
        UserPosition { outcome_id, shares: U256::zero(), total_cost: U256::zero(), claimed: false }
    }

    /// Adds `shares` bought for `cost`; both totals saturate.
    pub fn add_shares(&mut self, shares: U256, cost: U256)
        ensures
            final(self).outcome_id == old(self).outcome_id,
            final(self).claimed == old(self).claimed,
            final(self).shares@ == sat(old(self).shares@ + shares@),
            final(self).total_cost@ == sat(old(self).total_cost@ + cost@),
    {
        self.shares = add_sat(self.shares, shares);
        self.total_cost = add_sat(self.total_cost, cost);
    }

    /// Removes `shares`, reducing the cost basis in proportion. Returns
    /// false, changing nothing, when fewer shares are held.
    pub fn remove_shares(&mut self, shares: U256, _revenue: U256) -> (r: bool)
        ensures
            r == (shares@ <= old(self).shares@),
            !r ==> *final(self) == *old(self),
            r ==> final(self).outcome_id == old(self).outcome_id,
            r ==> final(self).claimed == old(self).claimed,
            r ==> final(self).shares@ == old(self).shares@ - shares@,
            r ==> final(self).total_cost@ == old(self).cost_after_sale(shares@),
            r ==> final(self).total_cost@ <= old(self).total_cost@,
    {
        if self.shares.lt(&shares) {
            return false;
        }
        let held = self.shares;
        self.shares = sub_sat(self.shares, shares);
        if self.shares.is_zero() {
            self.total_cost = U256::zero();
        } else {
            let scaled = mul_sat(self.total_cost, shares);
            let cost_reduction = div_floor(scaled, held);
            proof {
                let c = self.total_cost@;
                let s = shares@;
                let h = held@;
                assert(scaled@ <= c * s);
                assert(c * s <= c * h) by (nonlinear_arith)
                    requires
                        s <= h,
                        c >= 0,
                ;
                assert(scaled@ / h <= c) by (nonlinear_arith)
                    requires
                        scaled@ <= c * h,
                        h > 0,
                ;
            }
            self.total_cost = sub_sat(self.total_cost, cost_reduction);
        }
        true
    }
}

/// What a market's view operations report about it.
#[derive(Clone, Debug)]
pub struct MarketInfo {
    pub market_id: u64,
    pub market_type: MarketType,
    pub question: String,
    pub creator: Address,
    pub end_time: u64,
    pub status: MarketStatus,
    pub total_liquidity: U256,
    pub category: String,
    pub resolution_source: String,
}

/// What is fixed about a market when it is created.
#[derive(Clone, Debug)]
pub struct MarketMetadata {
    pub market_id: u64,
    pub market_type: MarketType,
    pub question: String,
    pub outcome_names: Vec<String>,
    pub outcome_count: u64,
    pub creator: Address,
    pub created_at: u64,
    pub end_time: u64,
    pub resolution_source: String,
    pub category: String,
}

/// The settings of a market that its admin may change.
#[derive(Clone, Copy, Debug)]
pub struct MarketConfig {
    pub admin: Address,
    pub resolver: Address,
    /// Platform fee in basis points.
    pub platform_fee_bps: u64,
    pub vault_contract: Address,
    pub factory_contract: Address,
}

/// What a binary market is created from.
#[derive(Clone, Debug)]
pub struct BinaryMarketParams {
    pub question: String,
    pub end_time: u64,
    pub resolution_source: String,
    pub category: String,
}

/// What a multiple-choice market is created from.
#[derive(Clone, Debug)]
pub struct MultipleChoiceMarketParams {
    pub question: String,
    pub outcomes: Vec<String>,
    pub end_time: u64,
    pub resolution_source: String,
    pub category: String,
}

/// A linear bonding curve: the share at supply `s` costs
/// `initial_price + k_constant * s`.
#[derive(Clone, Copy, Debug, PartialEq, Eq, Structural)]
pub struct BondingCurveParams {
    /// Base price per share, in motes.
    pub initial_price: U256,
    /// How much the price rises per share issued.
    pub k_constant: U256,
}

/// The sum of the supply indices a run of `n` shares above `s` occupies,
/// `(s+1) + (s+2) + ... + (s+n)`: `n * s + n * (n + 1) / 2`.
pub open spec fn index_sum(s: int, n: int) -> int {
    n * s + n * (n + 1) / 2
}

impl BondingCurveParams {
    /// The price at supply `s`, saturating.
    pub open spec fn price_spec(self, s: int) -> int {
        sat(self.initial_price@ + sat(self.k_constant@ * s))
    }

    /// The cost of `n` shares above `s` in exact arithmetic: the closed form
    /// `n * initial_price + k * (n * (2s + n + 1) / 2)`, the halving exact.
    pub open spec fn exact_cost(self, s: int, n: int) -> int {
        n * self.initial_price@ + self.k_constant@ * index_sum(s, n)
    }

    /// The cost of `n` shares above supply `s`: the exact cost, or the
    /// largest `U256` where it does not fit.
    pub open spec fn cost_spec(self, s: int, n: int) -> int {
        sat(self.exact_cost(s, n))
    }

    /// What selling `n` shares at supply `s` pays: the cost of buying them
    /// back from `s - n`, or 0 when `n` is 0 or more than `s`.
    pub open spec fn revenue_spec(self, s: int, n: int) -> int {
        if n == 0 || s < n {
            0
        } else {
            self.cost_spec(s - n, n)
        }
    }

    /// Whether the exact cost of `n` shares above `s` fits in a `U256`.
    pub open spec fn cost_fits(self, s: int, n: int) -> bool {
        self.exact_cost(s, n) <= u256_max()
    }

    /// The sum of the exact unit prices `price(s + 1) + ... + price(s + n)`.
    pub open spec fn price_sum(self, s: int, n: int) -> int
        decreases n,
    {
        if n <= 0 {
            0
        } else {
            self.price_sum(s, n - 1) + self.initial_price@ + self.k_constant@ * (s + n)
        }
    }

    /// Whether `n` is the most shares, up to `bound`, whose cost above `s`
    /// stays within `budget`.
    pub open spec fn is_max_affordable(self, s: int, budget: int, bound: int, n: int) -> bool {
        &&& 0 <= n <= bound
        &&& self.cost_spec(s, n) <= budget
        &&& n < bound ==> self.cost_spec(s, n + 1) > budget
    }

    /// Initial price 0.01 CSPR (10_000_000 motes), k 0.001 CSPR (1_000_000).
    pub fn default_params() -> (r: BondingCurveParams)
        ensures
            r.initial_price@ == 10_000_000,
            r.k_constant@ == 1_000_000,
    {
        BondingCurveParams {
            initial_price: U256::from_u64(10_000_000),
            k_constant: U256::from_u64(1_000_000),
        }
    }

    /// The price at supply `supply`: `initial_price + k_constant * supply`.
    pub fn price_at_supply(&self, supply: U256) -> (r: U256)
        ensures
            r@ == self.price_spec(supply@),
    {
        add_sat(self.initial_price, mul_sat(self.k_constant, supply))
    }

    /// The cost of buying `shares` shares above `current_supply`:
    /// `n * initial_price + k * (n * s + n * (n + 1) / 2)`. The even one of
    /// `n` and `n + 1` is halved before the product is taken, so the result
    /// saturates only where the exact cost does not fit.
    pub fn cost_to_buy(&self, current_supply: U256, shares: U256) -> (r: U256)
        ensures
            r@ == self.cost_spec(current_supply@, shares@),
    {
        let ghost s = current_supply@;
        let ghost n = shares@;
        proof {
            lemma_u256_bounded(shares);
            lemma_u256_bounded(current_supply);
            lemma_u256_bounded(self.initial_price);
            lemma_u256_bounded(self.k_constant);
        }
        if shares.is_zero() {
            proof {
                lemma_exact_cost_zero(*self, s);
            }
            return U256::zero();
        }
        let base_cost = mul_sat(shares, self.initial_price);
        let two = U256::from_u64(2);
        let half = div_floor(shares, two);
        let doubled_half = mul_sat(half, two);
        let (h, m) = if doubled_half.lt(&shares) {
            (shares, add_sat(half, U256::one()))
        } else {
            (half, add_sat(shares, U256::one()))
        };
        proof {
            lemma_half_product(n, h@, m@);
        }
        let triangle = mul_sat(h, m);
        let supply_part = mul_sat(shares, current_supply);
        let sum_factor = add_sat(supply_part, triangle);
        let premium = mul_sat(self.k_constant, sum_factor);
        let r = add_sat(base_cost, premium);
        proof {
            lemma_tri(n);
            assert(n * s >= 0) by (nonlinear_arith)
                requires
                    n >= 0,
                    s >= 0,
            ;
            lemma_sat_sum(n * s, n * (n + 1) / 2);
            lemma_sat_mul(self.k_constant@, index_sum(s, n));
            assert(n * self.initial_price@ >= 0) by (nonlinear_arith)
                requires
                    n >= 0,
                    self.initial_price@ >= 0,
            ;
            assert(self.k_constant@ * index_sum(s, n) >= 0) by (nonlinear_arith)
                requires
                    self.k_constant@ >= 0,
                    index_sum(s, n) >= 0,
            ;
            lemma_sat_sum(n * self.initial_price@, self.k_constant@ * index_sum(s, n));
        }
        r
    }

    /// What selling `shares` shares at `current_supply` pays.
    pub fn revenue_from_sell(&self, current_supply: U256, shares: U256) -> (r: U256)
        ensures
            r@ == self.revenue_spec(current_supply@, shares@),
    {
        if shares.is_zero() || current_supply.lt(&shares) {
            return U256::zero();
        }
        let new_supply = sub_sat(current_supply, shares);
        self.cost_to_buy(new_supply, shares)
    }

    /// The most shares, up to `max_cost / initial_price + 1000` (saturating),
    /// that `max_cost` buys above `current_supply`, by binary search over the
    /// non-decreasing cost. A curve with no base price gives no bound to
    /// search under: it is checked before dividing, and buys nothing.
    pub fn calculate_shares_for_cost(&self, current_supply: U256, max_cost: U256) -> (r: U256)
        ensures
            self.cost_spec(current_supply@, r@) <= max_cost@,
            self.initial_price@ == 0 ==> r@ == 0,
            self.initial_price@ > 0 ==> self.is_max_affordable(
                current_supply@,
                max_cost@,
                sat(max_cost@ / self.initial_price@ + 1000),
                r@,
            ),
    {
        proof {
            lemma_u256_bounded(current_supply);
            lemma_u256_bounded(max_cost);
            lemma_exact_cost_zero(*self, current_supply@);
        }
        if self.initial_price.is_zero() {
            return U256::zero();
        }
        let bound = add_sat(div_floor(max_cost, self.initial_price), U256::from_u64(1000));
        if max_cost.is_zero() {
            proof {
                lemma_cost_positive(*self, current_supply@, 1);
                lemma_u256_bounded(bound);
            }
            return U256::zero();
        }
        let mut low = U256::zero();
        let mut high = bound;
        while low.lt(&high)
            invariant
                current_supply@ >= 0,
                low@ <= high@ <= bound@,
                self.cost_spec(current_supply@, low@) <= max_cost@,
                high@ < bound@ ==> self.cost_spec(current_supply@, high@ + 1) > max_cost@,
            decreases high@ - low@,
        {
            let half = div_floor(add_sat(sub_sat(high, low), U256::one()), U256::from_u64(2));
            let mid = add_sat(low, half);
            proof {
                lemma_u256_bounded(high);
                lemma_u256_bounded(low);
            }
            let cost = self.cost_to_buy(current_supply, mid);
            if cost.le(&max_cost) {
                low = mid;
            } else {
                proof {
                    lemma_cost_monotone(*self, current_supply@, mid@, high@ + 1);
                }
                high = sub_sat(mid, U256::one());
            }
        }
        proof {
            lemma_u256_bounded(low);
        }
        low
    }
}

/// Saturation swallows what is added after it: `sat(sat(x) + y) == sat(x + y)`.
pub proof fn lemma_sat_absorbs(x: int, y: int)
    requires
        x >= 0,
        y >= 0,
    ensures
        sat(sat(x) + y) == sat(x + y),
{
}

/// `sat(sat(x) + sat(y)) == sat(x + y)` for non-negative `x` and `y`.
proof fn lemma_sat_sum(x: int, y: int)
    requires
        x >= 0,
        y >= 0,
    ensures
        sat(sat(x) + sat(y)) == sat(x + y),
{
}

/// Saturating a factor first changes nothing once the product saturates:
/// `sat(a * sat(b)) == sat(a * b)` for non-negative `a` and `b`.
proof fn lemma_sat_mul(a: int, b: int)
    requires
        a >= 0,
        b >= 0,
    ensures
        sat(a * sat(b)) == sat(a * b),
{
    if b > u256_max() && a > 0 {
        let m = u256_max() as int;
        assert(a * m >= m) by (nonlinear_arith)
            requires
                a >= 1,
                m >= 0,
        ;
        assert(a * b >= b) by (nonlinear_arith)
            requires
                a >= 1,
                b >= 0,
        ;
    } else if a == 0 {
        assert(a * sat(b) == 0);
        assert(a * b == 0);
    }
}

/// Saturation keeps order.
proof fn lemma_sat_monotone(x: int, y: int)
    requires
        x <= y,
    ensures
        sat(x) <= sat(y),
{
}

/// `n * (n + 1)` is even: its half is exact and not negative.
proof fn lemma_tri(n: int)
    requires
        n >= 0,
    ensures
        n * (n + 1) == 2 * (n * (n + 1) / 2),
        n * (n + 1) / 2 >= 0,
{
    let q = n / 2;
    if n % 2 == 0 {
        assert(n * (n + 1) == 2 * (q * (n + 1))) by (nonlinear_arith)
            requires
                n == 2 * q,
        ;
    } else {
        assert(n * (n + 1) == 2 * (n * (q + 1))) by (nonlinear_arith)
            requires
                n == 2 * q + 1,
        ;
    }
    assert(n * (n + 1) >= 0) by (nonlinear_arith)
        requires
            n >= 0,
    ;
}

/// The factors `cost_to_buy` multiplies: the even one of `n` and `n + 1`,
/// halved, times the other.
proof fn lemma_half_product(n: int, h: int, m: int)
    requires
        0 < n <= u256_max(),
        (h == n && m == sat(n / 2 + 1) && sat(n / 2 * 2) < n)
            || (h == n / 2 && m == sat(n + 1) && !(sat(n / 2 * 2) < n)),
    ensures
        h * m == n * (n + 1) / 2,
        h >= 0,
        m >= 0,
{
    let q = n / 2;
    lemma_tri(n);
    if h == n {
        assert(n == 2 * q + 1);
        assert(m == q + 1);
        assert(n * (q + 1) * 2 == n * (n + 1)) by (nonlinear_arith)
            requires
                n == 2 * q + 1,
        ;
    } else {
        assert(n == 2 * q);
        assert(m == n + 1);
        assert(q * (n + 1) * 2 == n * (n + 1)) by (nonlinear_arith)
            requires
                n == 2 * q,
        ;
    }
}

/// The run split at `a` adds up: `index_sum(s, a + b) == index_sum(s, a) + index_sum(s + a, b)`.
proof fn lemma_index_sum_split(s: int, a: int, b: int)
    requires
        s >= 0,
        a >= 0,
        b >= 0,
    ensures
        index_sum(s, a + b) == index_sum(s, a) + index_sum(s + a, b),
        index_sum(s, a) >= 0,
        index_sum(s + a, b) >= 0,
{
    lemma_tri(a);
    lemma_tri(b);
    lemma_tri(a + b);
    assert((a + b) * (a + b + 1) == a * (a + 1) + b * (b + 1) + 2 * (a * b)) by (nonlinear_arith);
    assert((a + b) * s == a * s + b * s) by (nonlinear_arith);
    assert(b * (s + a) == b * s + a * b) by (nonlinear_arith);
    assert(a * s >= 0 && b * (s + a) >= 0) by (nonlinear_arith)
        requires
            s >= 0,
            a >= 0,
            b >= 0,
    ;
}

/// The exact cost is never negative.
proof fn lemma_exact_cost_nonneg(p: BondingCurveParams, s: int, n: int)
    requires
        s >= 0,
        n >= 0,
    ensures
        index_sum(s, n) >= 0,
        p.exact_cost(s, n) >= 0,
{
    lemma_u256_bounded(p.initial_price);
    lemma_u256_bounded(p.k_constant);
    lemma_index_sum_split(s, n, 0);
    let ip = p.initial_price@;
    let k = p.k_constant@;
    let t = index_sum(s, n);
    assert(n * ip + k * t >= 0) by (nonlinear_arith)
        requires
            n >= 0,
            ip >= 0,
            k >= 0,
            t >= 0,
    ;
}

/// No shares cost nothing.
proof fn lemma_exact_cost_zero(p: BondingCurveParams, s: int)
    ensures
        p.exact_cost(s, 0) == 0,
        p.cost_spec(s, 0) == 0,
{
    assert(0 * s == 0) by (nonlinear_arith);
    assert(0 * (0 + 1) / 2 == 0) by (nonlinear_arith);
    assert(0 * p.initial_price@ == 0) by (nonlinear_arith);
    assert(p.k_constant@ * 0 == 0) by (nonlinear_arith);
}

/// The exact cost of a run split at `a` is the sum of the two parts.
proof fn lemma_exact_cost_split(p: BondingCurveParams, s: int, a: int, b: int)
    requires
        s >= 0,
        a >= 0,
        b >= 0,
    ensures
        p.exact_cost(s, a + b) == p.exact_cost(s, a) + p.exact_cost(s + a, b),
        p.exact_cost(s, a) >= 0,
        p.exact_cost(s + a, b) >= 0,
{
    lemma_index_sum_split(s, a, b);
    lemma_exact_cost_nonneg(p, s, a);
    lemma_exact_cost_nonneg(p, s + a, b);
    let ip = p.initial_price@;
    let k = p.k_constant@;
    let t = index_sum(s, a + b);
    let ta = index_sum(s, a);
    let tb = index_sum(s + a, b);
    assert(k * t == k * ta + k * tb) by (nonlinear_arith)
        requires
            t == ta + tb,
    ;
    assert((a + b) * ip == a * ip + b * ip) by (nonlinear_arith);
}

/// A positive number of shares costs something once the base price is positive.
proof fn lemma_cost_positive(p: BondingCurveParams, s: int, n: int)
    requires
        s >= 0,
        p.initial_price@ > 0,
        n > 0,
    ensures
        p.cost_spec(s, n) > 0,
{
    lemma_exact_cost_nonneg(p, s, n);
    lemma_u256_bounded(p.k_constant);
    assert(n * p.initial_price@ >= 1) by (nonlinear_arith)
        requires
            n >= 1,
            p.initial_price@ >= 1,
    ;
    let k = p.k_constant@;
    let t = index_sum(s, n);
    assert(k * t >= 0) by (nonlinear_arith)
        requires
            k >= 0,
            t >= 0,
    ;
}

/// The cost of buying from a fixed supply never falls as more shares are bought.
pub proof fn lemma_cost_monotone(p: BondingCurveParams, s: int, n: int, m: int)
    requires
        0 <= s,
        0 <= n <= m,
    ensures
        p.cost_spec(s, n) <= p.cost_spec(s, m),
{
    lemma_exact_cost_split(p, s, n, m - n);
    lemma_sat_monotone(p.exact_cost(s, n), p.exact_cost(s, m));
}

/// Price monotonicity: for every supply and every positive step, the price
/// after the step is at least the price before it.
pub proof fn lemma_price_monotone(p: BondingCurveParams, supply: int, delta: int)
    requires
        supply >= 0,
        delta > 0,
    ensures
        p.price_spec(supply + delta) >= p.price_spec(supply),
{
    let k = p.k_constant@;
    lemma_u256_bounded(p.k_constant);
    assert(k * supply <= k * (supply + delta)) by (nonlinear_arith)
        requires
            k >= 0,
            delta > 0,
    ;
    lemma_sat_monotone(k * supply, k * (supply + delta));
    lemma_sat_monotone(
        p.initial_price@ + sat(k * supply),
        p.initial_price@ + sat(k * (supply + delta)),
    );
}

/// Curve reversibility: for every supply holding at least `n` shares,
/// selling `n` pays exactly what buying those `n` back from `supply - n`
/// costs.
pub proof fn lemma_sell_reverses_buy(p: BondingCurveParams, supply: int, n: int)
    requires
        0 <= n <= supply,
    ensures
        p.revenue_spec(supply, n) == p.cost_spec(supply - n, n),
{
    lemma_exact_cost_zero(p, supply);
}

/// Where the exact cost fits, the cost is the exact cost.
pub proof fn lemma_cost_exact(p: BondingCurveParams, s: int, n: int)
    requires
        s >= 0,
        n >= 0,
        p.cost_fits(s, n),
    ensures
        p.cost_spec(s, n) == p.exact_cost(s, n),
{
    lemma_exact_cost_nonneg(p, s, n);
}

/// Where a run from zero fits, so does its first part:
/// `cost_fits(0, a + b)` gives `cost_fits(0, a)`.
pub proof fn lemma_cost_fits_prefix(p: BondingCurveParams, a: int, b: int)
    requires
        a >= 0,
        b >= 0,
        p.cost_fits(0, a + b),
    ensures
        p.cost_fits(0, a),
        p.cost_spec(0, a) >= 0,
{
    lemma_exact_cost_split(p, 0, a, b);
}

/// The exact cost is the sum of the unit prices it covers.
proof fn lemma_exact_cost_is_price_sum(p: BondingCurveParams, s: int, n: int)
    requires
        s >= 0,
        n >= 0,
    ensures
        p.exact_cost(s, n) == p.price_sum(s, n),
    decreases n,
{
    if n > 0 {
        lemma_exact_cost_is_price_sum(p, s, n - 1);
        lemma_exact_cost_split(p, s, n - 1, 1);
        assert(index_sum(s + n - 1, 1) == s + n) by (nonlinear_arith);
        assert(1 * p.initial_price@ == p.initial_price@);
    } else {
        lemma_exact_cost_zero(p, s);
    }
}

/// The closed form sums the unit prices: where the cost of `n` shares above
/// `s` fits in a `U256`, it is exactly
/// `price(s + 1) + price(s + 2) + ... + price(s + n)`.
pub proof fn lemma_cost_is_sum_of_prices(p: BondingCurveParams, s: int, n: int)
    requires
        s >= 0,
        n >= 0,
        p.cost_fits(s, n),
    ensures
        p.cost_spec(s, n) == p.price_sum(s, n),
{
    lemma_exact_cost_is_price_sum(p, s, n);
    lemma_cost_exact(p, s, n);
}

/// Cost additivity: where the cost of `a + b` shares above `s` fits in a
/// `U256`, it is what buying `a` above `s` and then `b` above `s + a` cost
/// together.
pub proof fn lemma_cost_additive(p: BondingCurveParams, s: int, a: int, b: int)
    requires
        s >= 0,
        a >= 0,
        b >= 0,
        p.cost_fits(s, a + b),
    ensures
        p.cost_spec(s, a + b) == p.cost_spec(s, a) + p.cost_spec(s + a, b),
{
    lemma_exact_cost_split(p, s, a, b);
    lemma_cost_exact(p, s, a + b);
}

} // verus!

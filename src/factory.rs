//! The factory: a registry that hands out market identifiers and holds the
//! platform-wide limits every new market must meet.
use vstd::prelude::*;
use crate::errors::Error;
use crate::events::{AdminTransferred, FactoryPauseStatusChanged, MarketCreated, PlatformFeeUpdated};
use crate::types::{Address, BondingCurveParams, MarketType};
use crate::u256::U256;

verus! {

/// The highest platform fee: 1000 basis points, 10%.
pub const MAX_FEE_BPS: u64 = 1000;

/// The longest question, in bytes.
pub const MAX_QUESTION_BYTES: usize = 1000;

/// The length of `s` in bytes, as UTF-8, as `str::len` reports it.
pub open spec fn byte_len(s: Seq<char>) -> int {
    (vstd::utf8::encode_utf8(s).len() as usize) as int
}

/// What the registry records of each market.
#[derive(Clone, Debug)]
pub struct MarketData {
    pub market_id: u64,
    pub market_type: MarketType,
    pub question: String,
    pub creator: Address,
    pub end_time: u64,
    pub category: String,
    pub created_at: u64,
}

/// What the factory is created from.
#[derive(Clone, Copy, Debug)]
pub struct FactoryInitArgs {
    pub admin: Address,
    pub vault_contract: Address,
    pub platform_fee_bps: u64,
    pub min_market_duration: u64,
    pub max_market_duration: u64,
    pub min_initial_liquidity: U256,
}

/// The market registry.
pub struct MarketFactory {
    admin: Address,
    paused: bool,
    markets: Vec<MarketData>,
    platform_fee_bps: u64,
    min_market_duration: u64,
    max_market_duration: u64,
    min_initial_liquidity: U256,
    default_bonding_params: BondingCurveParams,
    vault_contract: Address,
}

/// A copy of `d`.
fn copy_market_data(d: &MarketData) -> (r: MarketData)
    ensures
        r == *d,
{
    MarketData {
        market_id: d.market_id,
        market_type: d.market_type,
        question: d.question.clone(),
        creator: d.creator,
        end_time: d.end_time,
        category: d.category.clone(),
        created_at: d.created_at,
    }
}

impl MarketFactory {
    /// The registry's invariant: market `i` sits at index `i`, and the fee
    /// is within its cap.
    pub closed spec fn wf(&self) -> bool {
        &&& forall|i: int| 0 <= i < self.markets@.len() ==> self.markets@[i].market_id == i
        &&& self.platform_fee_bps <= MAX_FEE_BPS
    }

    /// How many markets have been created.
    pub closed spec fn market_count_spec(&self) -> int {
        self.markets@.len() as int
    }

    /// The record of market `id`, for `id` below the market count.
    pub closed spec fn market_spec(&self, id: int) -> MarketData {
        self.markets@[id]
    }

    pub closed spec fn admin_spec(&self) -> Address {
        self.admin
    }

    pub closed spec fn paused_spec(&self) -> bool {
        self.paused
    }

    pub closed spec fn fee_spec(&self) -> u64 {
        self.platform_fee_bps
    }

    pub closed spec fn min_duration_spec(&self) -> u64 {
        self.min_market_duration
    }

    pub closed spec fn max_duration_spec(&self) -> u64 {
        self.max_market_duration
    }

    pub closed spec fn min_liquidity_spec(&self) -> int {
        self.min_initial_liquidity@
    }

    pub closed spec fn vault_spec(&self) -> Address {
        self.vault_contract
    }

    pub closed spec fn default_params_spec(&self) -> BondingCurveParams {
        self.default_bonding_params
    }

    /// `other` holds the same registry and limits as `self`; only the admin
    /// and the pause flag may differ.
    pub closed spec fn same_registry(&self, other: &MarketFactory) -> bool {
        &&& other.markets@ == self.markets@
        &&& other.platform_fee_bps == self.platform_fee_bps
        &&& other.min_market_duration == self.min_market_duration
        &&& other.max_market_duration == self.max_market_duration
        &&& other.min_initial_liquidity == self.min_initial_liquidity
        &&& other.default_bonding_params == self.default_bonding_params
        &&& other.vault_contract == self.vault_contract
    }

    /// The first check a question and an end time fail at time `now`, if
    /// any: the question must have 1 to 1000 bytes, and the end time must lie
    /// after `now` by a duration within the limits.
    pub open spec fn params_error(&self, now: u64, question: Seq<char>, end_time: u64) -> Option<Error> {
        if question.len() == 0 || byte_len(question) > MAX_QUESTION_BYTES {
            Some(Error::InvalidQuestion)
        } else if end_time <= now {
            Some(Error::InvalidMarketDuration)
        } else if end_time - now < self.min_duration_spec() || end_time - now > self.max_duration_spec() {
            Some(Error::InvalidMarketDuration)
        } else {
            None
        }
    }

    /// The first check creating a market fails, if any: `outcomes` is the
    /// number of named outcomes of a multiple-choice market.
    pub open spec fn create_error(&self, now: u64, liquidity: int, question: Seq<char>, end_time: u64, outcomes: Option<int>) -> Option<Error> {
        if self.paused_spec() {
            Some(Error::FactoryPaused)
        } else if self.params_error(now, question, end_time) is Some {
            self.params_error(now, question, end_time)
        } else if outcomes matches Some(n) && n < 2 {
            Some(Error::InvalidOutcomeCount)
        } else if liquidity < self.min_liquidity_spec() {
            Some(Error::InsufficientInitialLiquidity)
        } else if self.market_count_spec() >= u64::MAX {
            Some(Error::Overflow)
        } else {
            None
        }
    }

    /// `other` is `self` with `d` registered as the next market.
    pub open spec fn registers(&self, other: &MarketFactory, d: MarketData) -> bool {
        &&& other.market_count_spec() == self.market_count_spec() + 1
        &&& other.market_spec(self.market_count_spec()) == d
        &&& forall|i: int| 0 <= i < self.market_count_spec() ==> other.market_spec(i) == self.market_spec(i)
        &&& other.admin_spec() == self.admin_spec()
        &&& other.paused_spec() == self.paused_spec()
        &&& other.fee_spec() == self.fee_spec()
        &&& other.min_duration_spec() == self.min_duration_spec()
        &&& other.max_duration_spec() == self.max_duration_spec()
        &&& other.min_liquidity_spec() == self.min_liquidity_spec()
        &&& other.vault_spec() == self.vault_spec()
        &&& other.default_params_spec() == self.default_params_spec()
    }

    /// A registry with no markets, under the limits of `args` and the
    /// default curve.
    ///
    /// Fails with `FeeTooHigh` for a fee above `MAX_FEE_BPS`.
    pub fn init(args: FactoryInitArgs) -> (r: Result<MarketFactory, Error>)
        ensures
            r is Ok <==> args.platform_fee_bps <= MAX_FEE_BPS,
            r matches Err(e) ==> e == Error::FeeTooHigh,
            r matches Ok(f) ==> f.wf() && f.market_count_spec() == 0 && f.admin_spec() == args.admin
                && !f.paused_spec() && f.fee_spec() == args.platform_fee_bps
                && f.min_duration_spec() == args.min_market_duration
                && f.max_duration_spec() == args.max_market_duration
                && f.min_liquidity_spec() == args.min_initial_liquidity@
                && f.vault_spec() == args.vault_contract
                && f.default_params_spec().initial_price@ == 10_000_000
                && f.default_params_spec().k_constant@ == 1_000_000,
    {
        if args.platform_fee_bps > MAX_FEE_BPS {
            return Err(Error::FeeTooHigh);
        }
        Ok(MarketFactory {
            admin: args.admin,
            paused: false,
            markets: Vec::new(),
            platform_fee_bps: args.platform_fee_bps,
            min_market_duration: args.min_market_duration,
            max_market_duration: args.max_market_duration,
            min_initial_liquidity: args.min_initial_liquidity,
            default_bonding_params: BondingCurveParams::default_params(),
            vault_contract: args.vault_contract,
        })
    }

    /// Checks a question and an end time against the limits at time `now`.
    fn validate_market_params(&self, question: &String, end_time: u64, now: u64) -> (r: Result<(), Error>)
        ensures
            r matches Err(e) ==> self.params_error(now, question@, end_time) == Some(e),
            r is Ok ==> self.params_error(now, question@, end_time) is None,
    {
        let q = question.as_str();
        if q.is_empty() || q.len() > MAX_QUESTION_BYTES {
            return Err(Error::InvalidQuestion);
        }
        if end_time <= now {
            return Err(Error::InvalidMarketDuration);
        }
        let duration = end_time - now;
        if duration < self.min_market_duration || duration > self.max_market_duration {
            return Err(Error::InvalidMarketDuration);
        }
        Ok(())
    }

    /// Registers the next market and returns the creation event.
    fn register(&mut self, market_type: MarketType, market_type_code: u8, caller: Address, now: u64, question: String, end_time: u64, category: String) -> (r: MarketCreated)
        requires
            old(self).wf(),
            old(self).market_count_spec() < u64::MAX,
        ensures
            final(self).wf(),
            old(self).registers(final(self), MarketData {
                market_id: old(self).market_count_spec() as u64,
                market_type,
                question,
                creator: caller,
                end_time,
                category,
                created_at: now,
            }),
            r.market_id == old(self).market_count_spec(),
            r.market_type == market_type_code,
            r.creator == caller,
            r.question == question,
            r.end_time == end_time,
            r.category == category,
    {
        let market_id = self.markets.len() as u64;
        let data = MarketData {
            market_id,
            market_type,
            question: question.clone(),
            creator: caller,
            end_time,
            category: category.clone(),
            created_at: now,
        };
        self.markets.push(data);
        MarketCreated { market_id, market_type: market_type_code, creator: caller, question, end_time, category }
    }

    /// Registers a binary market created by `caller` at time `now` with
    /// `initial_liquidity` attached; its identifier is the event's
    /// `market_id`.
    ///
    /// Fails, in this order of checks, with `FactoryPaused`,
    /// `InvalidQuestion` for an empty question or one over 1000 bytes,
    /// `InvalidMarketDuration` for an end time not after `now` or a duration
    /// outside the limits, `InsufficientInitialLiquidity`, and `Overflow`
    /// once every identifier is taken.
    pub fn create_binary_market(&mut self, caller: Address, now: u64, initial_liquidity: U256, question: String, end_time: u64, resolution_source: String, category: String) -> (r: Result<MarketCreated, Error>)
        requires
            old(self).wf(),
        ensures
            final(self).wf(),
            r matches Err(e) ==> *final(self) == *old(self)
                && old(self).create_error(now, initial_liquidity@, question@, end_time, None) == Some(e),
            r is Ok <==> old(self).create_error(now, initial_liquidity@, question@, end_time, None) is None,
            r matches Ok(ev) ==> ev.market_id == old(self).market_count_spec() && ev.market_type == 0
                && ev.creator == caller && ev.question == question && ev.end_time == end_time && ev.category == category
                && old(self).registers(final(self), MarketData {
                    market_id: ev.market_id,
                    market_type: MarketType::Binary,
                    question,
                    creator: caller,
                    end_time,
                    category,
                    created_at: now,
                }),
    {
        if self.paused {
            return Err(Error::FactoryPaused);
        }
        if let Err(e) = self.validate_market_params(&question, end_time, now) {
            return Err(e);
        }
        if initial_liquidity.lt(&self.min_initial_liquidity) {
            return Err(Error::InsufficientInitialLiquidity);
        }
        if self.markets.len() as u64 == u64::MAX {
            return Err(Error::Overflow);
        }
        Ok(self.register(MarketType::Binary, 0, caller, now, question, end_time, category))
    }

    /// Registers a multiple-choice market over `outcomes`, created by
    /// `caller` at time `now` with `initial_liquidity` attached.
    ///
    /// Fails as `create_binary_market` does, and with `InvalidOutcomeCount`
    /// for fewer than two outcomes, checked before the liquidity.
    pub fn create_multiple_choice_market(&mut self, caller: Address, now: u64, initial_liquidity: U256, question: String, outcomes: Vec<String>, end_time: u64, resolution_source: String, category: String) -> (r: Result<MarketCreated, Error>)
        requires
            old(self).wf(),
        ensures
            final(self).wf(),
            r matches Err(e) ==> *final(self) == *old(self)
                && old(self).create_error(now, initial_liquidity@, question@, end_time, Some(outcomes@.len() as int)) == Some(e),
            r is Ok <==> old(self).create_error(now, initial_liquidity@, question@, end_time, Some(outcomes@.len() as int)) is None,
            r matches Ok(ev) ==> ev.market_id == old(self).market_count_spec() && ev.market_type == 1
                && ev.creator == caller && ev.question == question && ev.end_time == end_time && ev.category == category
                && old(self).registers(final(self), MarketData {
                    market_id: ev.market_id,
                    market_type: MarketType::MultipleChoice,
                    question,
                    creator: caller,
                    end_time,
                    category,
                    created_at: now,
                }),
    {
        if self.paused {
            return Err(Error::FactoryPaused);
        }
        if let Err(e) = self.validate_market_params(&question, end_time, now) {
            return Err(e);
        }
        if outcomes.len() < 2 {
            return Err(Error::InvalidOutcomeCount);
        }
        if initial_liquidity.lt(&self.min_initial_liquidity) {
            return Err(Error::InsufficientInitialLiquidity);
        }
        if self.markets.len() as u64 == u64::MAX {
            return Err(Error::Overflow);
        }
        Ok(self.register(MarketType::MultipleChoice, 1, caller, now, question, end_time, category))
    }

    fn require_admin(&self, caller: &Address) -> (r: Result<(), Error>)
        ensures
            r is Ok <==> *caller == self.admin_spec(),
            r matches Err(e) ==> e == Error::NotAdmin,
    {
        if !caller.same(&self.admin) {
            return Err(Error::NotAdmin);
        }
        Ok(())
    }

    /// Sets the platform fee. Only the admin may do this.
    ///
    /// Fails with `NotAdmin`, then `FeeTooHigh` above `MAX_FEE_BPS`.
    pub fn set_platform_fee(&mut self, caller: Address, new_fee_bps: u64) -> (r: Result<PlatformFeeUpdated, Error>)
        requires
            old(self).wf(),
        ensures
            final(self).wf(),
            r matches Err(e) ==> *final(self) == *old(self)
                && e == (if caller != old(self).admin_spec() { Error::NotAdmin } else { Error::FeeTooHigh }),
            r is Ok <==> caller == old(self).admin_spec() && new_fee_bps <= MAX_FEE_BPS,
            r matches Ok(ev) ==> ev.old_fee == old(self).fee_spec() && ev.new_fee == new_fee_bps
                && final(self).fee_spec() == new_fee_bps
                && final(self).admin_spec() == old(self).admin_spec()
                && final(self).paused_spec() == old(self).paused_spec()
                && final(self).market_count_spec() == old(self).market_count_spec(),
    {
        self.require_admin(&caller)?;
        if new_fee_bps > MAX_FEE_BPS {
            return Err(Error::FeeTooHigh);
        }
        let old_fee = self.platform_fee_bps;
        self.platform_fee_bps = new_fee_bps;
        Ok(PlatformFeeUpdated { old_fee, new_fee: new_fee_bps })
    }

    /// Sets the allowed market durations. Only the admin may do this.
    ///
    /// Fails with `NotAdmin`, then `InvalidMarketDuration` where the minimum
    /// exceeds the maximum.
    pub fn set_duration_limits(&mut self, caller: Address, min_duration: u64, max_duration: u64) -> (r: Result<(), Error>)
        requires
            old(self).wf(),
        ensures
            final(self).wf(),
            r matches Err(e) ==> *final(self) == *old(self)
                && e == (if caller != old(self).admin_spec() { Error::NotAdmin } else { Error::InvalidMarketDuration }),
            r is Ok <==> caller == old(self).admin_spec() && min_duration <= max_duration,
            r is Ok ==> final(self).min_duration_spec() == min_duration && final(self).max_duration_spec() == max_duration
                && final(self).fee_spec() == old(self).fee_spec()
                && final(self).market_count_spec() == old(self).market_count_spec(),
    {
        self.require_admin(&caller)?;
        if min_duration > max_duration {
            return Err(Error::InvalidMarketDuration);
        }
        self.min_market_duration = min_duration;
        self.max_market_duration = max_duration;
        Ok(())
    }

    /// Sets the least liquidity a new market must bring. Only the admin may do this.
    pub fn set_min_initial_liquidity(&mut self, caller: Address, min_liquidity: U256) -> (r: Result<(), Error>)
        requires
            old(self).wf(),
        ensures
            final(self).wf(),
            r is Ok <==> caller == old(self).admin_spec(),
            r matches Err(e) ==> e == Error::NotAdmin && *final(self) == *old(self),
            r is Ok ==> final(self).min_liquidity_spec() == min_liquidity@
                && final(self).market_count_spec() == old(self).market_count_spec(),
    {
        self.require_admin(&caller)?;
        self.min_initial_liquidity = min_liquidity;
        Ok(())
    }

    /// Points the factory at another vault. Only the admin may do this.
    pub fn update_vault_contract(&mut self, caller: Address, new_vault: Address) -> (r: Result<(), Error>)
        requires
            old(self).wf(),
        ensures
            final(self).wf(),
            r is Ok <==> caller == old(self).admin_spec(),
            r matches Err(e) ==> e == Error::NotAdmin && *final(self) == *old(self),
            r is Ok ==> final(self).vault_spec() == new_vault
                && final(self).market_count_spec() == old(self).market_count_spec(),
    {
        self.require_admin(&caller)?;
        self.vault_contract = new_vault;
        Ok(())
    }

    /// Sets the curve new markets default to. Only the admin may do this.
    pub fn set_default_bonding_params(&mut self, caller: Address, params: BondingCurveParams) -> (r: Result<(), Error>)
        requires
            old(self).wf(),
        ensures
            final(self).wf(),
            r is Ok <==> caller == old(self).admin_spec(),
            r matches Err(e) ==> e == Error::NotAdmin && *final(self) == *old(self),
            r is Ok ==> final(self).default_params_spec() == params
                && final(self).market_count_spec() == old(self).market_count_spec(),
    {
        self.require_admin(&caller)?;
        self.default_bonding_params = params;
        Ok(())
    }

    /// Stops market creation. Only the admin may do this.
    pub fn pause(&mut self, caller: Address) -> (r: Result<FactoryPauseStatusChanged, Error>)
        requires
            old(self).wf(),
        ensures
            final(self).wf(),
            r is Ok <==> caller == old(self).admin_spec(),
            r matches Err(e) ==> e == Error::NotAdmin && *final(self) == *old(self),
            r matches Ok(ev) ==> ev.paused && final(self).paused_spec()
                && final(self).admin_spec() == old(self).admin_spec() && old(self).same_registry(final(self)),
    {
        self.require_admin(&caller)?;
        self.paused = true;
        Ok(FactoryPauseStatusChanged { paused: true })
    }

    /// Resumes market creation. Only the admin may do this.
    pub fn unpause(&mut self, caller: Address) -> (r: Result<FactoryPauseStatusChanged, Error>)
        requires
            old(self).wf(),
        ensures
            final(self).wf(),
            r is Ok <==> caller == old(self).admin_spec(),
            r matches Err(e) ==> e == Error::NotAdmin && *final(self) == *old(self),
            r matches Ok(ev) ==> !ev.paused && !final(self).paused_spec()
                && final(self).admin_spec() == old(self).admin_spec() && old(self).same_registry(final(self)),
    {
        self.require_admin(&caller)?;
        self.paused = false;
        Ok(FactoryPauseStatusChanged { paused: false })
    }

    /// Hands the admin role to `new_admin`. Only the admin may do this.
    pub fn transfer_admin(&mut self, caller: Address, new_admin: Address) -> (r: Result<AdminTransferred, Error>)
        requires
            old(self).wf(),
        ensures
            final(self).wf(),
            r is Ok <==> caller == old(self).admin_spec(),
            r matches Err(e) ==> e == Error::NotAdmin && *final(self) == *old(self),
            r matches Ok(ev) ==> ev.previous_admin == old(self).admin_spec() && ev.new_admin == new_admin
                && final(self).admin_spec() == new_admin && final(self).paused_spec() == old(self).paused_spec()
                && old(self).same_registry(final(self)),
    {
        self.require_admin(&caller)?;
        let previous_admin = self.admin;
        self.admin = new_admin;
        Ok(AdminTransferred { previous_admin, new_admin })
    }

    /// How many markets have been created.
    pub fn get_market_count(&self) -> (r: u64)
        ensures
            r == self.market_count_spec(),
    {
        self.markets.len() as u64
    }

    /// The record of market `market_id`, if it exists.
    pub fn get_market_data(&self, market_id: u64) -> (r: Option<MarketData>)
        ensures
            r is Some <==> market_id < self.market_count_spec(),
            r matches Some(d) ==> d == self.market_spec(market_id as int),
    {
        let len = self.markets.len();
        if market_id < len as u64 {
            Some(copy_market_data(&self.markets[market_id as usize]))
        } else {
            None
        }
    }

    /// The platform fee, in basis points.
    pub fn get_platform_fee(&self) -> (r: u64)
        ensures
            r == self.fee_spec(),
    {
        self.platform_fee_bps
    }

    /// The shortest allowed market duration.
    pub fn get_min_duration(&self) -> (r: u64)
        ensures
            r == self.min_duration_spec(),
    {
        self.min_market_duration
    }

    /// The longest allowed market duration.
    pub fn get_max_duration(&self) -> (r: u64)
        ensures
            r == self.max_duration_spec(),
    {
        self.max_market_duration
    }

    /// The least liquidity a new market must bring.
    pub fn get_min_initial_liquidity(&self) -> (r: U256)
        ensures
            r@ == self.min_liquidity_spec(),
    {
        self.min_initial_liquidity
    }

    /// The vault contract.
    pub fn get_vault_contract(&self) -> (r: Address)
        ensures
            r == self.vault_spec(),
    {
        self.vault_contract
    }

    /// The curve new markets default to.
    pub fn get_default_bonding_params(&self) -> (r: BondingCurveParams)
        ensures
            r == self.default_params_spec(),
    {
        self.default_bonding_params
    }

    /// Whether market creation is paused.
    pub fn is_paused(&self) -> (r: bool)
        ensures
            r == self.paused_spec(),
    {
        self.paused
    }

    /// The admin.
    pub fn get_admin(&self) -> (r: Address)
        ensures
            r == self.admin_spec(),
    {
        self.admin
    }
}

} // verus!

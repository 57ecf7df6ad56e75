use casper_predict::errors::Error;
use casper_predict::types::{BondingCurveParams, MarketType, Outcome, UserPosition};
use casper_predict::U256;

fn u(v: u64) -> U256 {
    U256::from_u64(v)
}

#[test]
fn test_bonding_curve_price_increases() {
    let params = BondingCurveParams::default_params();

    let price_at_0 = params.price_at_supply(U256::zero());
    let price_at_100 = params.price_at_supply(u(100));
    let price_at_1000 = params.price_at_supply(u(1000));

    assert!(price_at_0.lt(&price_at_100));
    assert!(price_at_100.lt(&price_at_1000));
}

#[test]
fn test_bonding_curve_cost_calculation() {
    let params = BondingCurveParams::default_params();

    // 1 * initial_price + k * [1 * (0 + 1 + 1) / 2] = initial_price + k
    let cost_first = params.cost_to_buy(U256::zero(), U256::one());
    let expected = u(10_000_000 + 1_000_000);
    assert_eq!(cost_first, expected);
}

#[test]
fn test_user_position_add_remove() {
    let mut pos = UserPosition::new(0);

    pos.add_shares(u(100), u(1000));
    assert_eq!(pos.shares, u(100));
    assert_eq!(pos.total_cost, u(1000));

    let success = pos.remove_shares(u(50), u(600));
    assert!(success);
    assert_eq!(pos.shares, u(50));
}

#[test]
fn default_params_are_a_cent_and_a_tenth_of_a_cent() {
    let params = BondingCurveParams::default_params();
    assert_eq!(params.initial_price, u(10_000_000));
    assert_eq!(params.k_constant, u(1_000_000));
}

#[test]
fn price_is_initial_price_plus_k_times_supply() {
    let params = BondingCurveParams::default_params();
    assert_eq!(params.price_at_supply(u(0)), u(10_000_000));
    assert_eq!(params.price_at_supply(u(7)), u(17_000_000));
    assert_eq!(params.price_at_supply(u(1000)), u(1_010_000_000));
}

#[test]
fn price_never_falls_as_supply_grows() {
    let params = BondingCurveParams { initial_price: u(3), k_constant: u(0) };
    assert_eq!(params.price_at_supply(u(5)), params.price_at_supply(u(500)));
    let params = BondingCurveParams::default_params();
    let mut prev = params.price_at_supply(u(0));
    for s in 1..50u64 {
        let p = params.price_at_supply(u(s * 13));
        assert!(prev.le(&p));
        prev = p;
    }
}

#[test]
fn price_saturates_at_the_largest_value() {
    let params = BondingCurveParams { initial_price: u(1), k_constant: U256::max_value() };
    assert_eq!(params.price_at_supply(u(2)), U256::max_value());
    assert_eq!(params.cost_to_buy(u(2), u(3)), U256::max_value());
}

#[test]
fn cost_matches_closed_form() {
    let params = BondingCurveParams::default_params();
    // 3 * 10_000_000 + 1_000_000 * (3 * (2 * 10 + 3 + 1) / 2) = 30_000_000 + 36_000_000
    assert_eq!(params.cost_to_buy(u(10), u(3)), u(66_000_000));
    assert_eq!(params.cost_to_buy(u(10), u(0)), u(0));
}

#[test]
fn cost_is_the_sum_of_unit_prices() {
    let params = BondingCurveParams::default_params();
    let s = 25u64;
    let n = 9u64;
    let mut expected: u64 = 0;
    for i in 1..=n {
        let p = params.price_at_supply(u(s + i));
        assert_eq!(p, u(10_000_000 + 1_000_000 * (s + i)));
        expected += p.as_u64();
    }
    assert_eq!(params.cost_to_buy(u(s), u(n)), u(expected));
}

#[test]
fn cost_is_additive() {
    let params = BondingCurveParams::default_params();
    let whole = params.cost_to_buy(u(5), u(7));
    let first = params.cost_to_buy(u(5), u(3));
    let second = params.cost_to_buy(u(8), u(4));
    assert_eq!(whole, u(70_000_000 + 1_000_000 * 63));
    assert_eq!(first, u(30_000_000 + 1_000_000 * 21));
    assert_eq!(second, u(40_000_000 + 1_000_000 * 42));
    assert_eq!(whole, u(51_000_000 + 82_000_000));
}

#[test]
fn selling_refunds_what_buying_back_costs() {
    let params = BondingCurveParams::default_params();
    assert_eq!(params.revenue_from_sell(u(10), u(4)), params.cost_to_buy(u(6), u(4)));
    assert_eq!(params.revenue_from_sell(u(10), u(4)), u(40_000_000 + 1_000_000 * 34));
    assert_eq!(params.revenue_from_sell(u(4), u(4)), params.cost_to_buy(u(0), u(4)));
}

#[test]
fn selling_nothing_or_more_than_supply_pays_nothing() {
    let params = BondingCurveParams::default_params();
    assert_eq!(params.revenue_from_sell(u(10), u(0)), u(0));
    assert_eq!(params.revenue_from_sell(u(3), u(4)), u(0));
}

#[test]
fn shares_for_cost_is_the_largest_affordable_count() {
    let params = BondingCurveParams::default_params();
    let budget = u(100_000_000);
    let n = params.calculate_shares_for_cost(u(0), budget);
    assert_eq!(n, u(7));
    assert!(params.cost_to_buy(u(0), n).le(&budget));
    assert!(budget.lt(&params.cost_to_buy(u(0), u(8))));

    let n = params.calculate_shares_for_cost(u(40), u(10_009_999));
    assert_eq!(n, u(0));
    let n = params.calculate_shares_for_cost(u(40), u(0));
    assert_eq!(n, u(0));
    let exact = params.cost_to_buy(u(40), u(12));
    assert_eq!(params.calculate_shares_for_cost(u(40), exact), u(12));
}

#[test]
fn shares_for_cost_stops_at_its_bound_on_a_flat_curve() {
    let params = BondingCurveParams { initial_price: u(10), k_constant: u(0) };
    assert_eq!(params.calculate_shares_for_cost(u(0), u(95)), u(9));
}

#[test]
fn removing_shares_reduces_cost_basis_in_proportion() {
    let mut pos = UserPosition::new(3);
    pos.add_shares(u(7), u(98_000_000));
    assert!(pos.remove_shares(u(3), u(0)));
    assert_eq!(pos.shares, u(4));
    assert_eq!(pos.total_cost, u(56_000_000));
    assert!(pos.remove_shares(u(4), u(0)));
    assert_eq!(pos.shares, u(0));
    assert_eq!(pos.total_cost, u(0));
    assert_eq!(pos.outcome_id, 3);
}

#[test]
fn removing_more_shares_than_held_changes_nothing() {
    let mut pos = UserPosition::new(1);
    pos.add_shares(u(5), u(50));
    assert!(!pos.remove_shares(u(6), u(0)));
    assert_eq!(pos.shares, u(5));
    assert_eq!(pos.total_cost, u(50));
}

#[test]
fn new_outcome_has_no_shares() {
    let o = Outcome::new(2, String::from("Maybe"));
    assert_eq!(o.id, 2);
    assert_eq!(o.name, "Maybe");
    assert_eq!(o.total_shares, U256::zero());
}

#[test]
fn error_codes_follow_their_groups() {
    assert_eq!(Error::AccessDenied.code(), 1);
    assert_eq!(Error::MarketNotActive.code(), 10);
    assert_eq!(Error::SlippageExceeded.code(), 22);
    assert_eq!(Error::ExceedsMarketBalance.code(), 35);
    assert_eq!(Error::FeeTooHigh.code(), 46);
    assert_eq!(Error::AlreadyClaimed.code(), 50);
    assert_eq!(Error::DivisionByZero.code(), 62);
    assert_eq!(Error::InvalidInitParams.code(), 72);
}

#[test]
fn u256_small_values_round_trip() {
    assert!(U256::zero().is_zero());
    assert!(!U256::one().is_zero());
    assert_eq!(u(12345).as_u64(), 12345);
    assert!(u(3).lt(&u(4)));
    assert!(!u(4).lt(&u(4)));
    assert!(u(4).le(&u(4)));
    assert!(u(7).lt(&U256::max_value()));
    let _ = MarketType::Compound;
}

#[test]
fn cost_stays_exact_when_only_the_doubled_sum_would_overflow() {
    // initial price 0, slope 1, supply 0, n = 2^128: n * (n + 1) / 2 = 2^255 + 2^127
    let params = BondingCurveParams { initial_price: u(0), k_constant: u(1) };
    let n = U256 { w0: 0, w1: 0, w2: 1, w3: 0 };
    let expected = U256 { w0: 0, w1: 1 << 63, w2: 0, w3: 1 << 63 };
    assert_eq!(params.cost_to_buy(u(0), n), expected);
    let odd = U256 { w0: 1, w1: 0, w2: 1, w3: 0 };
    // (2^128 + 1) * (2^127 + 1) = 2^255 + 2^128 + 2^127 + 1
    let expected_odd = U256 { w0: 1, w1: 1 << 63, w2: 1, w3: 1 << 63 };
    assert_eq!(params.cost_to_buy(u(0), odd), expected_odd);
}

#[test]
fn shares_for_cost_without_a_base_price_is_zero() {
    let params = BondingCurveParams { initial_price: u(0), k_constant: u(1) };
    assert_eq!(params.calculate_shares_for_cost(u(3), u(1_000)), u(0));
}

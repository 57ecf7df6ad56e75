use casper_predict::errors::Error;
use casper_predict::market::{Market, MarketInitArgs};
use casper_predict::types::{Address, BondingCurveParams, MarketStatus, MarketType};
use casper_predict::U256;

const NOW: u64 = 1_000;
const END: u64 = NOW + 86_400;

fn account(n: u8) -> Address {
    Address::Account([n; 32])
}

fn u(v: u64) -> U256 {
    U256::from_u64(v)
}

fn binary_args() -> MarketInitArgs {
    let admin = account(0);
    MarketInitArgs {
        market_id: 1,
        market_type: MarketType::Binary,
        question: "Will BTC reach $100k?".to_string(),
        outcome_names: vec!["Yes".to_string(), "No".to_string()],
        end_time: END,
        resolution_source: "Price oracle".to_string(),
        category: "crypto".to_string(),
        creator: admin,
        admin,
        resolver: admin,
        platform_fee_bps: 200,
        vault_contract: admin,
        factory_contract: admin,
        bonding_params: BondingCurveParams::default_params(),
    }
}

fn setup_binary_market() -> Market {
    let mut market = Market::new();
    market.init(binary_args(), NOW).unwrap();
    market
}

#[test]
fn test_market_init() {
    let market = setup_binary_market();

    let info = market.get_market_info();
    assert_eq!(info.market_id, 1);
    assert_eq!(info.question, "Will BTC reach $100k?");
    assert!(matches!(info.status, MarketStatus::Active));
    assert_eq!(market.get_outcome_count(), 2);
}

#[test]
fn test_get_outcome_names() {
    let market = setup_binary_market();

    assert_eq!(market.get_outcome_name(0), Some("Yes".to_string()));
    assert_eq!(market.get_outcome_name(1), Some("No".to_string()));
    assert_eq!(market.get_outcome_name(2), None);
}

#[test]
fn test_initial_price() {
    let market = setup_binary_market();

    let price = market.get_current_price(0);
    assert_eq!(price, U256::from_u64(10_000_000));
}

#[test]
fn init_twice_fails() {
    let mut market = setup_binary_market();
    assert_eq!(market.init(binary_args(), NOW).unwrap_err(), Error::AlreadyInitialized);
}

#[test]
fn init_checks_outcome_count_against_kind() {
    let mut market = Market::new();
    let mut args = binary_args();
    args.outcome_names.push("Maybe".to_string());
    assert_eq!(market.init(args, NOW).unwrap_err(), Error::InvalidOutcomeCount);

    let mut args = binary_args();
    args.market_type = MarketType::MultipleChoice;
    args.outcome_names = vec!["Only".to_string()];
    assert_eq!(market.init(args, NOW).unwrap_err(), Error::InvalidOutcomeCount);

    let mut args = binary_args();
    args.market_type = MarketType::Compound;
    args.outcome_names = vec!["A".to_string(), "B".to_string(), "C".to_string()];
    market.init(args, NOW).unwrap();
    assert_eq!(market.get_outcome_count(), 3);
    assert_eq!(market.get_metadata().outcome_names.len(), 3);
    assert_eq!(market.get_metadata().created_at, NOW);
}

#[test]
fn operations_before_init_fail() {
    let mut market = Market::new();
    assert_eq!(market.buy_shares(account(1), NOW, u(10), 0, u(0)).unwrap_err(), Error::NotInitialized);
    assert_eq!(market.close_market(account(0), NOW).unwrap_err(), Error::NotInitialized);
    assert_eq!(market.get_outcome_name(0), None);
}

#[test]
fn first_single_share_costs_initial_price_plus_k() {
    let mut market = setup_binary_market();
    // initial_price + k_constant = 10_000_000 + 1_000_000
    assert_eq!(market.calculate_buy_cost(0, u(1)), u(11_000_000));
    let p = market.buy_shares(account(1), NOW, u(11_000_000), 0, u(1)).unwrap();
    assert_eq!(p.event.shares, u(1));
    assert_eq!(p.event.cost, u(11_000_000));
    assert_eq!(p.refund, u(0));
    assert_eq!(p.event.new_price, u(11_000_000));
    assert_eq!(p.event.timestamp, NOW);
}

#[test]
fn buy_takes_the_most_shares_and_refunds_the_rest() {
    let mut market = setup_binary_market();
    let p = market.buy_shares(account(1), NOW, u(100_000_000), 0, u(0)).unwrap();
    assert_eq!(p.event.shares, u(7));
    assert_eq!(p.event.cost, u(98_000_000));
    assert_eq!(p.refund, u(2_000_000));
    assert_eq!(market.get_outcome_shares(0), u(7));
    assert_eq!(market.get_outcome_liquidity(0), u(98_000_000));
    assert_eq!(market.get_market_info().total_liquidity, u(98_000_000));
    let pos = market.get_user_position(account(1), 0);
    assert_eq!(pos.shares, u(7));
    assert_eq!(pos.total_cost, u(98_000_000));
    assert_eq!(market.get_current_price(0), u(17_000_000));
    assert_eq!(market.get_current_price(1), u(10_000_000));
}

#[test]
fn buy_errors() {
    let mut market = setup_binary_market();
    assert_eq!(market.buy_shares(account(1), NOW, u(0), 0, u(0)).unwrap_err(), Error::ZeroAmount);
    assert_eq!(market.buy_shares(account(1), NOW, u(10), 2, u(0)).unwrap_err(), Error::InvalidOutcome);
    assert_eq!(market.buy_shares(account(1), NOW, u(1), 0, u(0)).unwrap_err(), Error::InsufficientFunds);
    assert_eq!(market.buy_shares(account(1), NOW, u(100_000_000), 0, u(8)).unwrap_err(), Error::SlippageExceeded);
    assert_eq!(market.buy_shares(account(1), END, u(100_000_000), 0, u(0)).unwrap_err(), Error::MarketAlreadyEnded);
    assert_eq!(market.get_outcome_shares(0), u(0));
    market.close_market(account(0), NOW).unwrap();
    assert_eq!(market.buy_shares(account(1), NOW, u(100_000_000), 0, u(0)).unwrap_err(), Error::MarketNotActive);
}

#[test]
fn buy_on_a_curve_without_base_price_fails() {
    let mut market = Market::new();
    let mut args = binary_args();
    args.bonding_params = BondingCurveParams { initial_price: u(0), k_constant: u(5) };
    market.init(args, NOW).unwrap();
    assert_eq!(market.buy_shares(account(1), NOW, u(100), 0, u(0)).unwrap_err(), Error::DivisionByZero);
}

#[test]
fn sell_pays_the_curve_less_the_fee() {
    let mut market = setup_binary_market();
    market.buy_shares(account(1), NOW, u(100_000_000), 0, u(0)).unwrap();
    assert_eq!(market.calculate_sell_revenue(0, u(3)), u(47_040_000));
    let ev = market.sell_shares(account(1), NOW, 0, u(3), u(47_040_000)).unwrap();
    assert_eq!(ev.revenue, u(47_040_000));
    assert_eq!(ev.shares, u(3));
    assert_eq!(ev.new_price, u(14_000_000));
    assert_eq!(market.get_outcome_shares(0), u(4));
    assert_eq!(market.get_outcome_liquidity(0), u(50_000_000));
    assert_eq!(market.get_market_info().total_liquidity, u(50_960_000));
    let pos = market.get_user_position(account(1), 0);
    assert_eq!(pos.shares, u(4));
    assert_eq!(pos.total_cost, u(56_000_000));
}

#[test]
fn selling_everything_clears_the_cost_basis() {
    let mut market = setup_binary_market();
    market.buy_shares(account(1), NOW, u(100_000_000), 1, u(0)).unwrap();
    market.sell_shares(account(1), NOW, 1, u(7), u(0)).unwrap();
    let pos = market.get_user_position(account(1), 1);
    assert_eq!(pos.shares, u(0));
    assert_eq!(pos.total_cost, u(0));
    assert_eq!(market.get_outcome_shares(1), u(0));
    assert_eq!(market.get_outcome_liquidity(1), u(0));
}

#[test]
fn sell_errors() {
    let mut market = setup_binary_market();
    market.buy_shares(account(1), NOW, u(100_000_000), 0, u(0)).unwrap();
    assert_eq!(market.sell_shares(account(1), NOW, 0, u(0), u(0)).unwrap_err(), Error::ZeroAmount);
    assert_eq!(market.sell_shares(account(1), NOW, 5, u(1), u(0)).unwrap_err(), Error::InvalidOutcome);
    assert_eq!(market.sell_shares(account(1), NOW, 0, u(8), u(0)).unwrap_err(), Error::InsufficientShares);
    assert_eq!(market.sell_shares(account(2), NOW, 0, u(1), u(0)).unwrap_err(), Error::InsufficientShares);
    assert_eq!(market.sell_shares(account(1), NOW, 0, u(3), u(47_040_001)).unwrap_err(), Error::SlippageExceeded);
    assert_eq!(market.sell_shares(account(1), END + 1, 0, u(3), u(0)).unwrap_err(), Error::MarketAlreadyEnded);
    market.cancel_market(account(0), NOW, "void".to_string()).unwrap();
    assert_eq!(market.sell_shares(account(1), NOW, 0, u(3), u(0)).unwrap_err(), Error::MarketNotActive);
    assert_eq!(market.get_user_position(account(1), 0).shares, u(7));
}

#[test]
fn sole_winner_takes_the_pool_less_the_fee() {
    let mut market = setup_binary_market();
    market.buy_shares(account(1), NOW, u(100_000_000), 0, u(0)).unwrap();
    market.close_market(account(0), NOW).unwrap();
    let ev = market.resolve_market(account(0), NOW, 0, "oracle report".to_string()).unwrap();
    assert_eq!(ev.winning_outcome, 0);
    assert_eq!(ev.proof, "oracle report");
    assert_eq!(market.get_winning_outcome(), Some(0));
    let claim = market.claim_winnings(account(1), NOW).unwrap();
    // pool 98_000_000 less 2% = 96_040_000, all of it to the only holder
    assert_eq!(claim.payout, u(96_040_000));
    assert_eq!(market.claim_winnings(account(1), NOW).unwrap_err(), Error::AlreadyClaimed);
}

#[test]
fn winners_split_the_pool_by_shares() {
    let mut market = setup_binary_market();
    market.buy_shares(account(1), NOW, u(100_000_000), 0, u(0)).unwrap();
    market.buy_shares(account(2), NOW, u(50_000_000), 0, u(0)).unwrap();
    market.buy_shares(account(3), NOW, u(50_000_000), 1, u(0)).unwrap();
    let total = market.get_market_info().total_liquidity;
    market.resolve_market(account(0), END, 0, String::new()).unwrap();
    let a = market.claim_winnings(account(1), END).unwrap().payout;
    let b = market.claim_winnings(account(2), END).unwrap().payout;
    let shares_a = market.get_user_position(account(1), 0).shares.as_u64();
    let shares_b = market.get_user_position(account(2), 0).shares.as_u64();
    let pool = total.as_u64() - total.as_u64() * 200 / 10_000;
    assert_eq!(a, u(pool * shares_a / (shares_a + shares_b)));
    assert_eq!(b, u(pool * shares_b / (shares_a + shares_b)));
    assert_eq!(market.claim_winnings(account(3), END).unwrap_err(), Error::NoWinningPosition);
}

#[test]
fn claims_before_resolution_fail() {
    let mut market = setup_binary_market();
    market.buy_shares(account(1), NOW, u(100_000_000), 0, u(0)).unwrap();
    assert_eq!(market.claim_winnings(account(1), NOW).unwrap_err(), Error::MarketNotResolved);
    assert_eq!(market.claim_refund(account(1), NOW).unwrap_err(), Error::MarketNotCancelled);
    assert_eq!(market.get_winning_outcome(), None);
}

#[test]
fn a_whole_pool_fee_leaves_nothing_to_claim() {
    let mut market = Market::new();
    let mut args = binary_args();
    args.platform_fee_bps = 10_000;
    market.init(args, NOW).unwrap();
    market.buy_shares(account(1), NOW, u(100_000_000), 0, u(0)).unwrap();
    market.resolve_market(account(0), END, 0, String::new()).unwrap();
    assert_eq!(market.claim_winnings(account(1), END).unwrap_err(), Error::NothingToClaim);
}

#[test]
fn refunds_return_each_cost_basis_once() {
    let mut market = setup_binary_market();
    market.buy_shares(account(1), NOW, u(100_000_000), 0, u(0)).unwrap();
    market.buy_shares(account(2), NOW, u(50_000_000), 1, u(0)).unwrap();
    market.buy_shares(account(2), NOW, u(20_000_000), 0, u(0)).unwrap();
    let cancelled = market.cancel_market(account(0), NOW, "source went offline".to_string()).unwrap();
    assert_eq!(cancelled.reason, "source went offline");
    assert_eq!(market.get_status(), MarketStatus::Cancelled);

    let a = market.claim_refund(account(1), NOW).unwrap();
    assert_eq!(a.amount, u(98_000_000));
    let b_costs = market.get_user_position(account(2), 0).total_cost.as_u64()
        + market.get_user_position(account(2), 1).total_cost.as_u64();
    let b = market.claim_refund(account(2), NOW).unwrap();
    assert_eq!(b.amount, u(b_costs));
    assert_eq!(market.get_user_position(account(2), 1).total_cost, u(50_000_000));

    assert_eq!(market.claim_refund(account(1), NOW).unwrap_err(), Error::AlreadyClaimed);
    assert_eq!(market.claim_refund(account(2), NOW).unwrap_err(), Error::AlreadyClaimed);
    assert_eq!(market.claim_refund(account(3), NOW).unwrap_err(), Error::NoPositionToRefund);
}

#[test]
fn pool_equals_summed_cost_basis_under_purchases() {
    let mut market = setup_binary_market();
    market.buy_shares(account(1), NOW, u(100_000_000), 0, u(0)).unwrap();
    market.buy_shares(account(2), NOW, u(33_000_000), 1, u(0)).unwrap();
    market.buy_shares(account(1), NOW, u(45_000_000), 1, u(0)).unwrap();
    let mut sum = 0u64;
    for user in [account(1), account(2)] {
        for o in 0..2u64 {
            sum += market.get_user_position(user, o).total_cost.as_u64();
        }
    }
    assert_eq!(market.get_market_info().total_liquidity, u(sum));
}

#[test]
fn resolution_rules() {
    let mut market = setup_binary_market();
    assert_eq!(market.resolve_market(account(0), NOW, 0, String::new()).unwrap_err(), Error::MarketNotEnded);
    assert_eq!(market.resolve_market(account(5), END, 0, String::new()).unwrap_err(), Error::NotResolver);
    assert_eq!(market.resolve_market(account(0), END, 2, String::new()).unwrap_err(), Error::InvalidOutcome);
    market.update_resolver(account(0), account(5)).unwrap();
    market.resolve_market(account(5), END, 1, String::new()).unwrap();
    assert_eq!(market.resolve_market(account(0), END, 0, String::new()).unwrap_err(), Error::MarketAlreadyResolved);
    assert_eq!(market.cancel_market(account(0), END, String::new()).unwrap_err(), Error::MarketAlreadyResolved);
    assert_eq!(market.get_winning_outcome(), Some(1));
    assert_eq!(market.get_status(), MarketStatus::Resolved);
}

#[test]
fn cancelled_market_cannot_be_resolved() {
    let mut market = setup_binary_market();
    market.cancel_market(account(0), NOW, String::new()).unwrap();
    assert_eq!(market.resolve_market(account(0), END, 0, String::new()).unwrap_err(), Error::MarketCancelled);
}

#[test]
fn admin_operations_need_the_admin() {
    let mut market = setup_binary_market();
    assert_eq!(market.close_market(account(1), NOW).unwrap_err(), Error::NotAdmin);
    assert_eq!(market.cancel_market(account(1), NOW, String::new()).unwrap_err(), Error::NotAdmin);
    assert_eq!(market.update_resolver(account(1), account(1)).unwrap_err(), Error::NotAdmin);
    let ev = market.update_resolver(account(0), account(4)).unwrap();
    assert_eq!(ev.previous_resolver, account(0));
    assert_eq!(ev.new_resolver, account(4));
    assert_eq!(market.get_config().resolver, account(4));
    market.close_market(account(0), NOW).unwrap();
    assert_eq!(market.close_market(account(0), NOW).unwrap_err(), Error::MarketNotActive);
    assert_eq!(market.get_status(), MarketStatus::Closed);
}

#[test]
fn fresh_binary_market_has_even_odds() {
    let market = setup_binary_market();
    assert_eq!(market.get_outcome_odds(), vec![(0, 5000), (1, 5000)]);
}

#[test]
fn odds_favour_the_dearer_outcome_less() {
    let mut market = setup_binary_market();
    market.buy_shares(account(1), NOW, u(100_000_000), 0, u(0)).unwrap();
    // prices 17_000_000 and 10_000_000: inverses 58_823 and 100_000
    let odds = market.get_outcome_odds();
    assert_eq!(odds, vec![(0, 58_823 * 10_000 / 158_823), (1, 100_000 * 10_000 / 158_823)]);
}

#[test]
fn market_end_is_inclusive() {
    let market = setup_binary_market();
    assert!(!market.is_ended(END - 1));
    assert!(market.is_ended(END));
}

#[test]
fn second_resolution_before_the_end_reports_already_resolved() {
    let mut market = setup_binary_market();
    market.close_market(account(0), NOW).unwrap();
    market.resolve_market(account(0), NOW, 1, String::new()).unwrap();
    assert_eq!(market.resolve_market(account(0), NOW, 0, String::new()).unwrap_err(), Error::MarketAlreadyResolved);
    assert_eq!(market.resolve_market(account(7), NOW, 0, String::new()).unwrap_err(), Error::MarketAlreadyResolved);
    assert_eq!(market.get_winning_outcome(), Some(1));
}

#[test]
fn selling_a_fresh_purchase_returns_its_cost_less_the_fee() {
    let mut market = setup_binary_market();
    market.buy_shares(account(1), NOW, u(11_000_000), 0, u(1)).unwrap();
    let ev = market.sell_shares(account(1), NOW, 0, u(1), u(0)).unwrap();
    assert_eq!(ev.revenue, u(10_780_000));
    assert_eq!(market.get_outcome_shares(0), u(0));
    assert_eq!(market.get_outcome_liquidity(0), u(0));
    assert_eq!(market.get_market_info().total_liquidity, u(220_000));
}

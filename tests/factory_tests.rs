use casper_predict::deploy::DeploySystemScript;
use casper_predict::errors::Error;
use casper_predict::factory::{FactoryInitArgs, MarketFactory};
use casper_predict::types::{Address, BondingCurveParams, MarketType};
use casper_predict::U256;

const NOW: u64 = 10_000;

fn account(n: u8) -> Address {
    Address::Account([n; 32])
}

fn u(v: u64) -> U256 {
    U256::from_u64(v)
}

fn setup() -> MarketFactory {
    let admin = account(0);
    let init_args = FactoryInitArgs {
        admin,
        vault_contract: admin,
        platform_fee_bps: 200,
        min_market_duration: 3600,
        max_market_duration: 86400 * 30,
        min_initial_liquidity: U256::from_u64(1_000_000_000),
    };
    MarketFactory::init(init_args).unwrap()
}

#[test]
fn test_factory_init() {
    let factory = setup();
    let admin = account(0);

    assert_eq!(factory.get_admin(), admin);
    assert_eq!(factory.get_platform_fee(), 200);
    assert_eq!(factory.get_market_count(), 0);
    assert!(!factory.is_paused());
}

#[test]
fn factory_test_pause_unpause() {
    let mut factory = setup();

    assert!(!factory.is_paused());

    factory.pause(account(0)).unwrap();
    assert!(factory.is_paused());

    factory.unpause(account(0)).unwrap();
    assert!(!factory.is_paused());
}

#[test]
fn test_set_platform_fee() {
    let mut factory = setup();

    assert_eq!(factory.get_platform_fee(), 200);

    factory.set_platform_fee(account(0), 300).unwrap();
    assert_eq!(factory.get_platform_fee(), 300);
}

#[test]
fn test_transfer_admin() {
    let mut factory = setup();
    let new_admin = account(1);

    factory.transfer_admin(account(0), new_admin).unwrap();
    assert_eq!(factory.get_admin(), new_admin);
}

#[test]
fn init_rejects_a_fee_above_the_cap() {
    let args = FactoryInitArgs {
        admin: account(0),
        vault_contract: account(0),
        platform_fee_bps: 1001,
        min_market_duration: 0,
        max_market_duration: 10,
        min_initial_liquidity: u(0),
    };
    assert_eq!(MarketFactory::init(args).err(), Some(Error::FeeTooHigh));
}

#[test]
fn markets_get_consecutive_ids() {
    let mut factory = setup();
    let ev = factory
        .create_binary_market(account(3), NOW, u(1_000_000_000), "Rain tomorrow?".to_string(), NOW + 7200, String::new(), "weather".to_string())
        .unwrap();
    assert_eq!(ev.market_id, 0);
    assert_eq!(ev.market_type, 0);
    assert_eq!(ev.creator, account(3));
    let ev = factory
        .create_multiple_choice_market(
            account(4),
            NOW,
            u(2_000_000_000),
            "Who wins?".to_string(),
            vec!["A".to_string(), "B".to_string(), "C".to_string()],
            NOW + 3600,
            String::new(),
            "sports".to_string(),
        )
        .unwrap();
    assert_eq!(ev.market_id, 1);
    assert_eq!(ev.market_type, 1);
    assert_eq!(factory.get_market_count(), 2);
    let data = factory.get_market_data(0).unwrap();
    assert_eq!(data.question, "Rain tomorrow?");
    assert_eq!(data.market_type, MarketType::Binary);
    assert_eq!(data.created_at, NOW);
    assert_eq!(data.end_time, NOW + 7200);
    assert_eq!(factory.get_market_data(1).unwrap().market_type, MarketType::MultipleChoice);
    assert!(factory.get_market_data(2).is_none());
}

#[test]
fn creation_errors() {
    let mut factory = setup();
    let q = || "Q?".to_string();
    assert_eq!(factory.create_binary_market(account(3), NOW, u(1_000_000_000), String::new(), NOW + 7200, String::new(), String::new()).unwrap_err(), Error::InvalidQuestion);
    assert_eq!(factory.create_binary_market(account(3), NOW, u(1_000_000_000), "x".repeat(1001), NOW + 7200, String::new(), String::new()).unwrap_err(), Error::InvalidQuestion);
    factory.create_binary_market(account(3), NOW, u(1_000_000_000), "x".repeat(1000), NOW + 7200, String::new(), String::new()).unwrap();
    assert_eq!(factory.create_binary_market(account(3), NOW, u(1_000_000_000), q(), NOW, String::new(), String::new()).unwrap_err(), Error::InvalidMarketDuration);
    assert_eq!(factory.create_binary_market(account(3), NOW, u(1_000_000_000), q(), NOW + 3599, String::new(), String::new()).unwrap_err(), Error::InvalidMarketDuration);
    assert_eq!(factory.create_binary_market(account(3), NOW, u(1_000_000_000), q(), NOW + 86400 * 30 + 1, String::new(), String::new()).unwrap_err(), Error::InvalidMarketDuration);
    assert_eq!(factory.create_binary_market(account(3), NOW, u(999_999_999), q(), NOW + 3600, String::new(), String::new()).unwrap_err(), Error::InsufficientInitialLiquidity);
    assert_eq!(factory.create_multiple_choice_market(account(3), NOW, u(1_000_000_000), q(), vec!["A".to_string()], NOW + 3600, String::new(), String::new()).unwrap_err(), Error::InvalidOutcomeCount);
    factory.pause(account(0)).unwrap();
    assert_eq!(factory.create_binary_market(account(3), NOW, u(1_000_000_000), q(), NOW + 3600, String::new(), String::new()).unwrap_err(), Error::FactoryPaused);
    assert_eq!(factory.get_market_count(), 1);
}

#[test]
fn settings_need_the_admin_and_sane_values() {
    let mut factory = setup();
    assert_eq!(factory.set_platform_fee(account(1), 100).unwrap_err(), Error::NotAdmin);
    assert_eq!(factory.set_platform_fee(account(0), 1001).unwrap_err(), Error::FeeTooHigh);
    let ev = factory.set_platform_fee(account(0), 1000).unwrap();
    assert_eq!(ev.old_fee, 200);
    assert_eq!(ev.new_fee, 1000);
    assert_eq!(factory.set_duration_limits(account(0), 10, 9).unwrap_err(), Error::InvalidMarketDuration);
    factory.set_duration_limits(account(0), 10, 20).unwrap();
    assert_eq!(factory.get_min_duration(), 10);
    assert_eq!(factory.get_max_duration(), 20);
    factory.set_min_initial_liquidity(account(0), u(5)).unwrap();
    assert_eq!(factory.get_min_initial_liquidity(), u(5));
    factory.update_vault_contract(account(0), account(9)).unwrap();
    assert_eq!(factory.get_vault_contract(), account(9));
    let params = BondingCurveParams { initial_price: u(1), k_constant: u(2) };
    factory.set_default_bonding_params(account(0), params).unwrap();
    assert_eq!(factory.get_default_bonding_params(), params);
    assert_eq!(factory.pause(account(1)).unwrap_err(), Error::NotAdmin);
    assert_eq!(factory.transfer_admin(account(1), account(1)).unwrap_err(), Error::NotAdmin);
}

#[test]
fn deployment_authorizes_the_factory_in_the_vault() {
    let system = DeploySystemScript.deploy(account(0), account(10), account(11)).unwrap();
    assert!(system.vault.is_market_authorized(account(11)));
    assert!(!system.vault.is_market_authorized(account(10)));
    assert_eq!(system.vault.get_admin(), account(0));
    assert_eq!(system.vault.get_fee_recipient(), account(0));
    assert_eq!(system.factory.get_platform_fee(), 200);
    assert_eq!(system.factory.get_min_duration(), 3600);
    assert_eq!(system.factory.get_max_duration(), 2_592_000);
    assert_eq!(system.factory.get_min_initial_liquidity(), u(1_000_000_000));
    assert_eq!(system.factory.get_vault_contract(), account(10));
    assert_eq!(system.factory.get_default_bonding_params(), BondingCurveParams::default_params());
}

use casper_predict::errors::Error;
use casper_predict::types::Address;
use casper_predict::vault::Vault;
use casper_predict::U256;

fn account(n: u8) -> Address {
    Address::Account([n; 32])
}

fn u(v: u64) -> U256 {
    U256::from_u64(v)
}

fn setup() -> Vault {
    Vault::init(account(0), account(1))
}

#[test]
fn test_init() {
    let vault = setup();
    let admin = account(0);
    let fee_recipient = account(1);

    assert_eq!(vault.get_admin(), admin);
    assert_eq!(vault.get_fee_recipient(), fee_recipient);
    assert!(!vault.is_paused());
    assert_eq!(vault.get_total_locked(), U256::zero());
}

#[test]
fn vault_test_pause_unpause() {
    let mut vault = setup();

    assert!(!vault.is_paused());

    vault.pause(account(0)).unwrap();
    assert!(vault.is_paused());

    vault.unpause(account(0)).unwrap();
    assert!(!vault.is_paused());
}

#[test]
fn test_authorize_revoke_market() {
    let mut vault = setup();
    let market = account(2);

    assert!(!vault.is_market_authorized(market));

    vault.authorize_market(account(0), market).unwrap();
    assert!(vault.is_market_authorized(market));

    vault.revoke_market(account(0), market).unwrap();
    assert!(!vault.is_market_authorized(market));
}

#[test]
fn deposit_then_withdraw_leaves_the_difference_locked() {
    let mut vault = setup();
    let market = account(2);
    vault.authorize_market(account(0), market).unwrap();
    let ev = vault.deposit(market, 7, u(500)).unwrap();
    assert_eq!(ev.amount, u(500));
    assert_eq!(ev.market_id, 7);
    assert_eq!(ev.from_contract, market);
    let ev = vault.withdraw(market, 7, account(9), u(200)).unwrap();
    assert_eq!(ev.recipient, account(9));
    assert_eq!(ev.amount, u(200));
    assert_eq!(vault.get_total_locked(), u(300));
    assert_eq!(vault.get_market_balance(7), u(300));

    assert_eq!(vault.withdraw(market, 7, account(9), u(400)).unwrap_err(), Error::ExceedsMarketBalance);
    assert_eq!(vault.get_total_locked(), u(300));
    assert_eq!(vault.get_market_balance(7), u(300));
}

#[test]
fn balances_are_kept_per_market() {
    let mut vault = setup();
    vault.deposit(account(0), 1, u(100)).unwrap();
    vault.deposit(account(0), 2, u(40)).unwrap();
    vault.deposit(account(0), 1, u(5)).unwrap();
    assert_eq!(vault.get_market_balance(1), u(105));
    assert_eq!(vault.get_market_balance(2), u(40));
    assert_eq!(vault.get_market_balance(3), u(0));
    assert_eq!(vault.get_total_locked(), u(145));
}

#[test]
fn deposit_errors() {
    let mut vault = setup();
    assert_eq!(vault.deposit(account(5), 1, u(10)).unwrap_err(), Error::UnauthorizedMarket);
    assert_eq!(vault.deposit(account(0), 1, u(0)).unwrap_err(), Error::ZeroAmount);
    vault.deposit(account(0), 1, U256::max_value()).unwrap();
    assert_eq!(vault.deposit(account(0), 2, u(1)).unwrap_err(), Error::Overflow);
    vault.pause(account(0)).unwrap();
    assert_eq!(vault.deposit(account(0), 1, u(10)).unwrap_err(), Error::VaultPaused);
    assert_eq!(vault.get_total_locked(), U256::max_value());
}

#[test]
fn withdraw_errors() {
    let mut vault = setup();
    assert_eq!(vault.withdraw(account(0), 1, account(3), u(0)).unwrap_err(), Error::ZeroAmount);
    assert_eq!(vault.withdraw(account(0), 1, account(3), u(1)).unwrap_err(), Error::ExceedsMarketBalance);
    assert_eq!(vault.withdraw(account(4), 1, account(3), u(1)).unwrap_err(), Error::UnauthorizedMarket);
    vault.pause(account(0)).unwrap();
    assert_eq!(vault.withdraw(account(0), 1, account(3), u(1)).unwrap_err(), Error::VaultPaused);
}

#[test]
fn the_factory_may_move_funds() {
    let mut vault = setup();
    let factory = account(8);
    assert_eq!(vault.deposit(factory, 1, u(10)).unwrap_err(), Error::UnauthorizedMarket);
    assert_eq!(vault.set_factory(account(3), factory).unwrap_err(), Error::NotAdmin);
    vault.set_factory(account(0), factory).unwrap();
    assert_eq!(vault.get_factory(), Some(factory));
    vault.deposit(factory, 1, u(10)).unwrap();
    vault.authorize_market(factory, account(2)).unwrap();
    assert!(vault.is_market_authorized(account(2)));
}

#[test]
fn fees_move_from_a_market_into_the_pool_and_out() {
    let mut vault = setup();
    vault.deposit(account(0), 1, u(1000)).unwrap();
    assert_eq!(vault.collect_platform_fees(account(0), 1, u(0)).unwrap().is_none(), true);
    let ev = vault.collect_platform_fees(account(0), 1, u(30)).unwrap().unwrap();
    assert_eq!(ev.amount, u(30));
    assert_eq!(vault.get_market_balance(1), u(970));
    assert_eq!(vault.get_platform_fees(), u(30));
    assert_eq!(vault.get_total_locked(), u(1000));
    assert_eq!(vault.collect_platform_fees(account(0), 1, u(971)).unwrap_err(), Error::ExceedsMarketBalance);

    assert_eq!(vault.claim_platform_fees(account(0)).unwrap_err(), Error::AccessDenied);
    let ev = vault.claim_platform_fees(account(1)).unwrap();
    assert_eq!(ev.recipient, account(1));
    assert_eq!(ev.amount, u(30));
    assert_eq!(vault.get_platform_fees(), u(0));
    assert_eq!(vault.get_total_locked(), u(970));
    assert_eq!(vault.claim_platform_fees(account(1)).unwrap_err(), Error::NothingToClaim);
}

#[test]
fn paused_vault_refuses_fee_movements() {
    let mut vault = setup();
    vault.deposit(account(0), 1, u(10)).unwrap();
    vault.pause(account(0)).unwrap();
    assert_eq!(vault.collect_platform_fees(account(0), 1, u(1)).unwrap_err(), Error::VaultPaused);
    assert_eq!(vault.claim_platform_fees(account(1)).unwrap_err(), Error::VaultPaused);
}

#[test]
fn authorization_errors() {
    let mut vault = setup();
    let market = account(2);
    assert_eq!(vault.authorize_market(account(3), market).unwrap_err(), Error::AccessDenied);
    vault.authorize_market(account(0), market).unwrap();
    assert_eq!(vault.authorize_market(account(0), market).unwrap_err(), Error::MarketAlreadyAuthorized);
    assert_eq!(vault.revoke_market(account(3), market).unwrap_err(), Error::NotAdmin);
    assert_eq!(vault.revoke_market(account(0), account(4)).unwrap_err(), Error::MarketNotAuthorized);
    vault.authorize_market(account(0), account(4)).unwrap();
    vault.revoke_market(account(0), market).unwrap();
    assert!(!vault.is_market_authorized(market));
    assert!(vault.is_market_authorized(account(4)));
    assert_eq!(vault.revoke_market(account(0), market).unwrap_err(), Error::MarketNotAuthorized);
}

#[test]
fn contract_and_account_with_the_same_hash_differ() {
    let mut vault = setup();
    vault.authorize_market(account(0), Address::Contract([2; 32])).unwrap();
    assert!(vault.is_market_authorized(Address::Contract([2; 32])));
    assert!(!vault.is_market_authorized(account(2)));
}

#[test]
fn admin_controls() {
    let mut vault = setup();
    assert_eq!(vault.pause(account(1)).unwrap_err(), Error::NotAdmin);
    assert_eq!(vault.update_fee_recipient(account(1), account(6)).unwrap_err(), Error::NotAdmin);
    vault.update_fee_recipient(account(0), account(6)).unwrap();
    assert_eq!(vault.get_fee_recipient(), account(6));
    let ev = vault.transfer_admin(account(0), account(7)).unwrap();
    assert_eq!(ev.previous_admin, account(0));
    assert_eq!(ev.new_admin, account(7));
    assert_eq!(vault.get_admin(), account(7));
    assert_eq!(vault.transfer_admin(account(0), account(0)).unwrap_err(), Error::NotAdmin);
}

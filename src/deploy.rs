//! Setting up the platform: a vault, a factory pointed at it, and the
//! factory allowed to move vault funds.
use vstd::prelude::*;
use crate::errors::Error;
use crate::factory::{FactoryInitArgs, MarketFactory};
use crate::types::Address;
use crate::u256::U256;
use crate::vault::Vault;

verus! {

/// The platform fee new deployments start with: 200 basis points, 2%.
pub const DEPLOY_PLATFORM_FEE_BPS: u64 = 200;

/// The shortest market a new deployment allows: one hour.
pub const DEPLOY_MIN_MARKET_DURATION: u64 = 3600;

/// The longest market a new deployment allows: thirty days.
pub const DEPLOY_MAX_MARKET_DURATION: u64 = 2_592_000;

/// The least liquidity a new market must bring: 1 CSPR in motes.
pub const DEPLOY_MIN_INITIAL_LIQUIDITY: u64 = 1_000_000_000;

/// The vault and the factory of a fresh deployment.
pub struct DeployedSystem {
    pub vault: Vault,
    pub factory: MarketFactory,
}

/// The deployment of the vault and the factory.
pub struct DeploySystemScript;

impl DeploySystemScript {
    /// Sets up the vault, run by `admin` who also receives the fees, and the
    /// factory with the deployment's limits, pointed at the vault at
    /// `vault_address`; then authorizes the factory, at `factory_address`,
    /// in the vault.
    pub fn deploy(&self, admin: Address, vault_address: Address, factory_address: Address) -> (r: Result<DeployedSystem, Error>)
        ensures
            r matches Ok(s) ==> {
                &&& s.vault.wf()
                &&& s.vault.admin_spec() == admin
                &&& s.vault.fee_recipient_spec() == admin
                &&& !s.vault.paused_spec()
                &&& s.vault.total_locked_spec() == 0
                &&& s.vault.fees_spec() == 0
                &&& forall|m: u64| s.vault.balance_of(m) == 0
                &&& forall|a: Address| s.vault.is_authorized_spec(a) <==> a == factory_address
                &&& s.factory.wf()
                &&& s.factory.admin_spec() == admin
                &&& !s.factory.paused_spec()
                &&& s.factory.market_count_spec() == 0
                &&& s.factory.fee_spec() == DEPLOY_PLATFORM_FEE_BPS
                &&& s.factory.min_duration_spec() == DEPLOY_MIN_MARKET_DURATION
                &&& s.factory.max_duration_spec() == DEPLOY_MAX_MARKET_DURATION
                &&& s.factory.min_liquidity_spec() == DEPLOY_MIN_INITIAL_LIQUIDITY
                &&& s.factory.vault_spec() == vault_address
            },
            r is Ok,
    {
        let mut vault = Vault::init(admin, admin);
        let factory = match MarketFactory::init(FactoryInitArgs {
            admin,
            vault_contract: vault_address,
            platform_fee_bps: DEPLOY_PLATFORM_FEE_BPS,
            min_market_duration: DEPLOY_MIN_MARKET_DURATION,
            max_market_duration: DEPLOY_MAX_MARKET_DURATION,
            min_initial_liquidity: U256::from_u64(DEPLOY_MIN_INITIAL_LIQUIDITY),
        }) {
            Ok(f) => f,
            Err(e) => {
                return Err(e);
            },
        };
        if let Err(e) = vault.authorize_market(admin, factory_address) {
            return Err(e);
        }
        Ok(DeployedSystem { vault, factory })
    }
}

} // verus!

use vstd::prelude::*;

verus! {

/// A 32-byte identity: a wallet, a token, or the key under which a record is stored.
#[derive(Clone, Copy, Debug, PartialEq, Eq)]
pub struct Address {
    pub bytes: [u8; 32],
}

impl Address {
    /// Whether two identities are the same, byte for byte.
    pub fn same(&self, other: &Address) -> (equal: bool)
        ensures
            equal == (*self == *other),
    {
        let mut i: usize = 0;
        while i < 32
            invariant
                i <= 32,
                forall|j: int| 0 <= j < i ==> self.bytes[j] == other.bytes[j],
            decreases 32 - i,
        {
            if self.bytes[i] != other.bytes[i] {
                return false;
            }
            i = i + 1;
        }
        assert(self.bytes =~= other.bytes);
        true
    }
}

/// The stage of a launch's life. A launch only ever moves down this list.
#[derive(Clone, Copy, Debug, PartialEq, Eq, Structural)]
pub enum LaunchPhase {
    Initialized,
    TradingRestricted,
    TradingOpen,
    Finalized,
}

impl LaunchPhase {
    /// The phase's place in the order of a launch's life.
    pub open spec fn rank(self) -> nat {
        match self {
            LaunchPhase::Initialized => 0,
            LaunchPhase::TradingRestricted => 1,
            LaunchPhase::TradingOpen => 2,
            LaunchPhase::Finalized => 3,
        }
    }

    /// Whether purchases and liquidity registration are allowed in this phase.
    pub open spec fn allows_trading(self) -> bool {
        self == LaunchPhase::TradingRestricted || self == LaunchPhase::TradingOpen
    }
}

/// Limits on how much one wallet may buy, and how soon trading may open.
#[derive(Clone, Copy, Debug, PartialEq, Eq)]
pub struct AntiSnipeConfig {
    pub max_buy_per_wallet: u64,
    pub phased_unlock: bool,
    pub unlock_duration: Option<i64>,
    pub fair_launch_delay: Option<i64>,
}

impl AntiSnipeConfig {
    pub const LEN: usize = 8 + 1 + 9 + 9;
}

/// Limits on coordinated buying.
#[derive(Clone, Copy, Debug, PartialEq, Eq)]
pub struct AntiBundleConfig {
    /// Informational: no rule reads it.
    pub detect_bundles: bool,
    /// The largest share of the supply, in percent, that one wallet may hold.
    pub max_wallet_concentration: u8,
    /// When set, a wallet's purchases lie at least one time unit apart.
    pub one_action_per_tx: bool,
}

impl AntiBundleConfig {
    pub const LEN: usize = 1 + 1 + 1;
}

/// Guarantees that the creator gives before trading.
#[derive(Clone, Copy, Debug, PartialEq, Eq)]
pub struct AntiRugConfig {
    pub fixed_supply: bool,
    pub revoke_mint_authority: bool,
    pub revoke_freeze_authority: bool,
    pub lp_lock_duration: Option<i64>,
}

impl AntiRugConfig {
    pub const LEN: usize = 1 + 1 + 1 + 9;
}

/// The economic parameters of the distribution.
#[derive(Clone, Copy, Debug, PartialEq, Eq)]
pub struct USD1LaunchConfig {
    pub initial_price: u64,
    /// The denominator of the concentration rule.
    pub total_supply: u64,
    pub liquidity_amount: u64,
    pub creator_allocation: u64,
}

impl USD1LaunchConfig {
    pub const LEN: usize = 8 + 8 + 8 + 8;
}

/// The whole configuration of a launch. It never changes once the launch exists.
#[derive(Clone, Copy, Debug, PartialEq, Eq)]
pub struct LaunchConfigData {
    pub anti_snipe: AntiSnipeConfig,
    pub anti_bundle: AntiBundleConfig,
    pub anti_rug: AntiRugConfig,
    pub usd1_config: USD1LaunchConfig,
}

impl LaunchConfigData {
    pub const LEN: usize = AntiSnipeConfig::LEN + AntiBundleConfig::LEN + AntiRugConfig::LEN
        + USD1LaunchConfig::LEN;
}

/// The record of one launch.
#[derive(Clone, Copy, Debug, PartialEq, Eq)]
pub struct LaunchState {
    pub bump: u8,
    pub creator: Address,
    pub token_mint: Address,
    pub config: LaunchConfigData,
    pub phase: LaunchPhase,
    pub created_at: i64,
    pub launched_at: Option<i64>,
    pub finalized_at: Option<i64>,
    pub total_purchased: u64,
    pub participant_count: u64,
}

impl LaunchState {
    /// Bytes that the stored record takes, an 8-byte tag included.
    pub const LEN: usize = 8 + 1 + 32 + 32 + LaunchConfigData::LEN + 1 + 8 + 9 + 9 + 8 + 8;
}

/// What one wallet has bought in one launch.
#[derive(Clone, Copy, Debug, PartialEq, Eq)]
pub struct UserPurchaseState {
    pub bump: u8,
    pub launch: Address,
    pub user: Address,
    pub total_purchased: u64,
    pub purchase_count: u32,
    pub last_purchase_at: i64,
}

impl UserPurchaseState {
    /// Bytes that the stored record takes, an 8-byte tag included.
    pub const LEN: usize = 8 + 1 + 32 + 32 + 8 + 4 + 8;

    /// The record of a wallet that has not bought yet.
    pub fn new(bump: u8, launch: Address, user: Address) -> (record: UserPurchaseState)
        ensures
            record == (UserPurchaseState {
                bump,
                launch,
                user,
                total_purchased: 0,
                purchase_count: 0,
                last_purchase_at: 0,
            }),
    {
        UserPurchaseState {
            bump,
            launch,
            user,
            total_purchased: 0,
            purchase_count: 0,
            last_purchase_at: 0,
        }
    }
}

/// The record of a launch's liquidity pool.
#[derive(Clone, Copy, Debug, PartialEq, Eq)]
pub struct LiquidityPoolState {
    pub bump: u8,
    pub launch: Address,
    pub lp_mint: Address,
    pub lp_amount: u64,
    /// Unset means unlocked.
    pub locked_until: Option<i64>,
    pub created_at: i64,
}

impl LiquidityPoolState {
    /// Bytes that the stored record takes, an 8-byte tag included.
    pub const LEN: usize = 8 + 1 + 32 + 32 + 8 + 9 + 8;
}

} // verus!

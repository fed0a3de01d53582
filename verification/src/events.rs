use vstd::prelude::*;
use crate::state::Address;

verus! {

/// A launch was created.
#[derive(Clone, Copy, Debug, PartialEq, Eq)]
pub struct LaunchInitialized {
    pub launch: Address,
    pub creator: Address,
    pub token_mint: Address,
    pub timestamp: i64,
}

/// The token's authorities were revoked.
#[derive(Clone, Copy, Debug, PartialEq, Eq)]
pub struct AuthoritiesRevoked {
    pub launch: Address,
    pub token_mint: Address,
    pub mint_authority_revoked: bool,
    pub freeze_authority_revoked: bool,
    pub timestamp: i64,
}

/// Trading was opened.
#[derive(Clone, Copy, Debug, PartialEq, Eq)]
pub struct TradingEnabled {
    pub launch: Address,
    pub timestamp: i64,
}

/// A purchase was admitted. The totals are those after the purchase.
#[derive(Clone, Copy, Debug, PartialEq, Eq)]
pub struct PurchaseExecuted {
    pub launch: Address,
    pub user: Address,
    pub amount: u64,
    pub total_user_purchased: u64,
    pub total_launch_purchased: u64,
    pub timestamp: i64,
}

/// A liquidity pool was registered.
#[derive(Clone, Copy, Debug, PartialEq, Eq)]
pub struct LPInitialized {
    pub launch: Address,
    pub lp_mint: Address,
    pub lp_amount: u64,
    pub locked_until: Option<i64>,
    pub timestamp: i64,
}

/// The launch was finalized.
#[derive(Clone, Copy, Debug, PartialEq, Eq)]
pub struct LaunchFinalized {
    pub launch: Address,
    pub total_purchased: u64,
    pub participant_count: u64,
    pub timestamp: i64,
}

} // verus!

use vstd::prelude::*;

verus! {

/// Why an operation was refused.
#[derive(Clone, Copy, Debug, PartialEq, Eq, Structural)]
pub enum OneguardError {
    /// The wallet's cap would be passed, or a counter would overflow.
    MaxBuyExceeded,
    /// The launch is not in a phase that allows trading.
    TradingNotEnabled,
    /// The launch is not in the phase that the transition starts from.
    TradingAlreadyOpen,
    /// The launch has been finalized.
    LaunchFinalized,
    /// The authorities have been revoked before.
    AuthoritiesRevoked,
    /// No revocation time is on record.
    AuthoritiesNotRevoked,
    /// The delay between revocation and open trading has not passed.
    FairLaunchDelayNotElapsed,
    /// Reserved for bundle heuristics; no rule reports it.
    BundleDetected,
    /// The wallet would hold too large a share of the supply.
    ConcentrationExceeded,
    /// The wallet bought less than one time unit ago.
    PurchaseTooSoon,
    /// The caller is not the launch's creator.
    Unauthorized,
    /// A configured number is out of range.
    InvalidConfig,
    /// The configuration does not fix the supply.
    FixedSupplyRequired,
    /// The configuration does not revoke the mint authority.
    MintAuthorityMustBeRevoked,
    /// The configuration does not revoke the freeze authority.
    FreezeAuthorityMustBeRevoked,
    /// The liquidity lock has not expired; reported by whoever guards withdrawal.
    LPLockNotExpired,
}

impl OneguardError {
    /// The message that goes with the error.
    pub fn message(&self) -> (text: &'static str)
        ensures
            text@ == Self::message_of(*self),
    {
        match self {
            OneguardError::MaxBuyExceeded => "Max buy per wallet exceeded",
            OneguardError::TradingNotEnabled => "Trading not yet enabled",
            OneguardError::TradingAlreadyOpen => "Trading already open",
            OneguardError::LaunchFinalized => "Launch already finalized",
            OneguardError::AuthoritiesRevoked => "Authorities already revoked",
            OneguardError::AuthoritiesNotRevoked => "Authorities not yet revoked",
            OneguardError::FairLaunchDelayNotElapsed => "Fair launch delay not elapsed",
            OneguardError::BundleDetected => "Bundle detected - one action per transaction",
            OneguardError::ConcentrationExceeded => "Wallet concentration limit exceeded",
            OneguardError::PurchaseTooSoon => "Purchase too soon after last purchase",
            OneguardError::Unauthorized => "Unauthorized",
            OneguardError::InvalidConfig => "Invalid configuration",
            OneguardError::FixedSupplyRequired => "Fixed supply required",
            OneguardError::MintAuthorityMustBeRevoked => "Mint authority must be revoked",
            OneguardError::FreezeAuthorityMustBeRevoked => "Freeze authority must be revoked",
            OneguardError::LPLockNotExpired => "LP lock not yet expired",
        }
    }

    /// The text of each error's message.
    pub open spec fn message_of(e: OneguardError) -> Seq<char> {
        match e {
            OneguardError::MaxBuyExceeded => "Max buy per wallet exceeded"@,
            OneguardError::TradingNotEnabled => "Trading not yet enabled"@,
            OneguardError::TradingAlreadyOpen => "Trading already open"@,
            OneguardError::LaunchFinalized => "Launch already finalized"@,
            OneguardError::AuthoritiesRevoked => "Authorities already revoked"@,
            OneguardError::AuthoritiesNotRevoked => "Authorities not yet revoked"@,
            OneguardError::FairLaunchDelayNotElapsed => "Fair launch delay not elapsed"@,
            OneguardError::BundleDetected => "Bundle detected - one action per transaction"@,
            OneguardError::ConcentrationExceeded => "Wallet concentration limit exceeded"@,
            OneguardError::PurchaseTooSoon => "Purchase too soon after last purchase"@,
            OneguardError::Unauthorized => "Unauthorized"@,
            OneguardError::InvalidConfig => "Invalid configuration"@,
            OneguardError::FixedSupplyRequired => "Fixed supply required"@,
            OneguardError::MintAuthorityMustBeRevoked => "Mint authority must be revoked"@,
            OneguardError::FreezeAuthorityMustBeRevoked => "Freeze authority must be revoked"@,
            OneguardError::LPLockNotExpired => "LP lock not yet expired"@,
        }
    }
}

} // verus!

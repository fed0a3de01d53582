use vstd::prelude::*;
use crate::admission::{check_trading, trading_guard};
use crate::errors::OneguardError;
use crate::events::{
    AuthoritiesRevoked,
    LPInitialized,
    LaunchFinalized,
    LaunchInitialized,
    TradingEnabled,
};
use crate::state::{Address, LaunchConfigData, LaunchPhase, LaunchState, LiquidityPoolState};

verus! {

/// The first fault of a proposed configuration, if it has one. The supply
/// must be fixed and both authorities revoked; the cap per wallet must be
/// positive and the concentration limit at most 100 percent.
pub open spec fn config_error(config: LaunchConfigData) -> Option<OneguardError> {
    if !config.anti_rug.fixed_supply {
        Some(OneguardError::FixedSupplyRequired)
    } else if !config.anti_rug.revoke_mint_authority {
        Some(OneguardError::MintAuthorityMustBeRevoked)
    } else if !config.anti_rug.revoke_freeze_authority {
        Some(OneguardError::FreezeAuthorityMustBeRevoked)
    } else if config.anti_snipe.max_buy_per_wallet == 0 {
        Some(OneguardError::InvalidConfig)
    } else if config.anti_bundle.max_wallet_concentration > 100 {
        Some(OneguardError::InvalidConfig)
    } else {
        None
    }
}

/// A launch as it is created: nothing bought, nothing revoked, not finalized.
pub open spec fn fresh_launch(
    creator: Address,
    token_mint: Address,
    bump: u8,
    config: LaunchConfigData,
    now: i64,
) -> LaunchState {
    LaunchState {
        bump,
        creator,
        token_mint,
        config,
        phase: LaunchPhase::Initialized,
        created_at: now,
        launched_at: None,
        finalized_at: None,
        total_purchased: 0,
        participant_count: 0,
    }
}

/// Whether a launch's record is one that the operations produce: its
/// configuration is valid, a launch time is on record exactly from the
/// restricted phase on or never, and a time of finalization exactly when it
/// is finalized.
pub open spec fn well_formed(launch: LaunchState) -> bool {
    &&& config_error(launch.config) is None
    &&& launch.phase == LaunchPhase::Initialized ==> launch.launched_at is None
    &&& launch.phase.allows_trading() ==> launch.launched_at is Some
    &&& launch.finalized_at is Some <==> launch.phase == LaunchPhase::Finalized
}

/// Why the authorities cannot be revoked, if they cannot: the caller is not
/// the creator, or the launch has left its first phase.
pub open spec fn revoke_error(launch: LaunchState, caller: Address) -> Option<OneguardError> {
    if caller != launch.creator {
        Some(OneguardError::Unauthorized)
    } else if launch.phase != LaunchPhase::Initialized {
        Some(OneguardError::TradingAlreadyOpen)
    } else {
        None
    }
}

/// The launch after its authorities were revoked at time `now`.
pub open spec fn launch_after_revoke(launch: LaunchState, now: i64) -> LaunchState {
    LaunchState { phase: LaunchPhase::TradingRestricted, launched_at: Some(now), ..launch }
}

/// Why trading cannot be opened at time `now`, if it cannot: the caller is not
/// the creator; the launch is not in its restricted phase; or a delay is
/// configured and no revocation time is on record, or less than the delay has
/// passed since.
pub open spec fn enable_error(launch: LaunchState, caller: Address, now: i64) -> Option<
    OneguardError,
> {
    if caller != launch.creator {
        Some(OneguardError::Unauthorized)
    } else if launch.phase != LaunchPhase::TradingRestricted {
        Some(OneguardError::TradingAlreadyOpen)
    } else {
        match launch.config.anti_snipe.fair_launch_delay {
            None => None,
            Some(delay) => match launch.launched_at {
                None => Some(OneguardError::AuthoritiesNotRevoked),
                Some(launched_at) => if now - launched_at < delay {
                    Some(OneguardError::FairLaunchDelayNotElapsed)
                } else {
                    None
                },
            },
        }
    }
}

/// The launch after trading was opened.
pub open spec fn launch_after_enable(launch: LaunchState) -> LaunchState {
    LaunchState { phase: LaunchPhase::TradingOpen, ..launch }
}

/// Why a liquidity pool cannot be registered, if it cannot: the caller is not
/// the creator, the launch is finalized, or trading is not enabled yet.
pub open spec fn liquidity_error(launch: LaunchState, caller: Address) -> Option<OneguardError> {
    if caller != launch.creator {
        Some(OneguardError::Unauthorized)
    } else {
        trading_guard(launch.phase)
    }
}

/// The time until which liquidity registered at `created_at` is locked:
/// `created_at` plus the configured duration, or unset where none is configured.
pub open spec fn lock_end(launch: LaunchState, created_at: i64) -> Option<int> {
    match launch.config.anti_rug.lp_lock_duration {
        Some(duration) => Some(created_at + duration),
        None => None,
    }
}

/// Whether the end of the lock, if there is one, is a time that 64 bits can hold.
pub open spec fn lock_end_fits(launch: LaunchState, created_at: i64) -> bool {
    match lock_end(launch, created_at) {
        Some(end) => i64::MIN <= end <= i64::MAX,
        None => true,
    }
}

/// Why the launch cannot be finalized, if it cannot: the caller is not the
/// creator, or it has been finalized before.
pub open spec fn finalize_error(launch: LaunchState, caller: Address) -> Option<OneguardError> {
    if caller != launch.creator {
        Some(OneguardError::Unauthorized)
    } else if launch.phase == LaunchPhase::Finalized {
        Some(OneguardError::LaunchFinalized)
    } else {
        None
    }
}

/// The launch after it was finalized at time `now`.
pub open spec fn launch_after_finalize(launch: LaunchState, now: i64) -> LaunchState {
    LaunchState { phase: LaunchPhase::Finalized, finalized_at: Some(now), ..launch }
}

/// The revocations that a launch's configuration asks for.
#[derive(Clone, Copy, Debug, PartialEq, Eq)]
pub struct RevocationPlan {
    pub revoke_mint_authority: bool,
    pub revoke_freeze_authority: bool,
}

impl LaunchConfigData {
    /// Checks a proposed configuration and reports its first fault.
    pub fn validate(&self) -> (checked: Result<(), OneguardError>)
        ensures
            checked is Ok <==> config_error(*self) is None,
            checked matches Err(e) ==> config_error(*self) == Some(e),
    {
        if !self.anti_rug.fixed_supply {
            return Err(OneguardError::FixedSupplyRequired);
        }
        if !self.anti_rug.revoke_mint_authority {
            return Err(OneguardError::MintAuthorityMustBeRevoked);
        }
        if !self.anti_rug.revoke_freeze_authority {
            return Err(OneguardError::FreezeAuthorityMustBeRevoked);
        }
        if !(self.anti_snipe.max_buy_per_wallet > 0) {
            return Err(OneguardError::InvalidConfig);
        }
        if !(self.anti_bundle.max_wallet_concentration <= 100) {
            return Err(OneguardError::InvalidConfig);
        }
        Ok(())
    }
}

/// Creates the launch of `token_mint` for `creator` at time `now`, stored
/// under `launch_key`, if the configuration is valid. With a faulty
/// configuration no launch is made.
pub fn initialize_launch(
    launch_key: Address,
    creator: Address,
    token_mint: Address,
    bump: u8,
    config: LaunchConfigData,
    now: i64,
) -> (outcome: Result<(LaunchState, LaunchInitialized), OneguardError>)
    ensures
        match outcome {
            Ok((launch, event)) => {
                &&& config_error(config) is None
                &&& launch == fresh_launch(creator, token_mint, bump, config, now)
                &&& event == (LaunchInitialized {
                    launch: launch_key,
                    creator,
                    token_mint,
                    timestamp: now,
                })
            },
            Err(e) => config_error(config) == Some(e),
        },
{
    match config.validate() {
        Err(e) => {
            return Err(e);
        },
        Ok(_) => {},
    }
    let launch = LaunchState {
        bump,
        creator,
        token_mint,
        config,
        phase: LaunchPhase::Initialized,
        created_at: now,
        launched_at: None,
        finalized_at: None,
        total_purchased: 0,
        participant_count: 0,
    };
    let event = LaunchInitialized { launch: launch_key, creator, token_mint, timestamp: now };
    Ok((launch, event))
}

/// Decides whether `caller` may revoke the authorities now, and says which
/// revocations the configuration asks for. The launch is not changed: the
/// revocations are carried out first, and `revoke_authorities` records them.
pub fn plan_revocation(launch: &LaunchState, caller: &Address) -> (outcome: Result<
    RevocationPlan,
    OneguardError,
>)
    ensures
        match outcome {
            Ok(plan) => {
                &&& revoke_error(*launch, *caller) is None
                &&& plan == (RevocationPlan {
                    revoke_mint_authority: launch.config.anti_rug.revoke_mint_authority,
                    revoke_freeze_authority: launch.config.anti_rug.revoke_freeze_authority,
                })
            },
            Err(e) => revoke_error(*launch, *caller) == Some(e),
        },
{
    if !caller.same(&launch.creator) {
        return Err(OneguardError::Unauthorized);
    }
    if !(launch.phase == LaunchPhase::Initialized) {
        return Err(OneguardError::TradingAlreadyOpen);
    }
    Ok(
        RevocationPlan {
            revoke_mint_authority: launch.config.anti_rug.revoke_mint_authority,
            revoke_freeze_authority: launch.config.anti_rug.revoke_freeze_authority,
        },
    )
}

/// Records at time `now` that the authorities were revoked: the launch enters
/// its restricted phase and `now` becomes its launch time. Refused for anyone
/// but the creator, and in any phase but the first.
pub fn revoke_authorities(
    launch: &mut LaunchState,
    launch_key: Address,
    caller: &Address,
    now: i64,
) -> (outcome: Result<AuthoritiesRevoked, OneguardError>)
    ensures
        match outcome {
            Ok(event) => {
                &&& revoke_error(*old(launch), *caller) is None
                &&& *final(launch) == launch_after_revoke(*old(launch), now)
                &&& event == (AuthoritiesRevoked {
                    launch: launch_key,
                    token_mint: old(launch).token_mint,
                    mint_authority_revoked: old(launch).config.anti_rug.revoke_mint_authority,
                    freeze_authority_revoked: old(launch).config.anti_rug.revoke_freeze_authority,
                    timestamp: now,
                })
            },
            Err(e) => {
                &&& revoke_error(*old(launch), *caller) == Some(e)
                &&& *final(launch) == *old(launch)
            },
        },
{
    let plan = match plan_revocation(launch, caller) {
        Ok(p) => p,
        Err(e) => {
            return Err(e);
        },
    };
    launch.phase = LaunchPhase::TradingRestricted;
    launch.launched_at = Some(now);
    Ok(
        AuthoritiesRevoked {
            launch: launch_key,
            token_mint: launch.token_mint,
            mint_authority_revoked: plan.revoke_mint_authority,
            freeze_authority_revoked: plan.revoke_freeze_authority,
            timestamp: now,
        },
    )
}

/// Opens trading at time `now`. Refused for anyone but the creator, in any
/// phase but the restricted one, and before a configured delay has passed
/// since the authorities were revoked.
pub fn enable_trading(
    launch: &mut LaunchState,
    launch_key: Address,
    caller: &Address,
    now: i64,
) -> (outcome: Result<TradingEnabled, OneguardError>)
    ensures
        match outcome {
            Ok(event) => {
                &&& enable_error(*old(launch), *caller, now) is None
                &&& *final(launch) == launch_after_enable(*old(launch))
                &&& event == (TradingEnabled { launch: launch_key, timestamp: now })
            },
            Err(e) => {
                &&& enable_error(*old(launch), *caller, now) == Some(e)
                &&& *final(launch) == *old(launch)
            },
        },
{
    if !caller.same(&launch.creator) {
        return Err(OneguardError::Unauthorized);
    }
    if !(launch.phase == LaunchPhase::TradingRestricted) {
        return Err(OneguardError::TradingAlreadyOpen);
    }
    if let Some(delay) = launch.config.anti_snipe.fair_launch_delay {
        let launched_at: i64 = match launch.launched_at {
            Some(t) => t,
            None => {
                return Err(OneguardError::AuthoritiesNotRevoked);
            },
        };
        let elapsed: i128 = (now as i128) - (launched_at as i128);
        if !(elapsed >= delay as i128) {
            return Err(OneguardError::FairLaunchDelayNotElapsed);
        }
    }
    launch.phase = LaunchPhase::TradingOpen;
    Ok(TradingEnabled { launch: launch_key, timestamp: now })
}

/// Decides whether `caller` may register a liquidity pool now, and changes
/// nothing.
pub fn check_liquidity(launch: &LaunchState, caller: &Address) -> (checked: Result<
    (),
    OneguardError,
>)
    ensures
        checked is Ok <==> liquidity_error(*launch, *caller) is None,
        checked matches Err(e) ==> liquidity_error(*launch, *caller) == Some(e),
{
    if !caller.same(&launch.creator) {
        return Err(OneguardError::Unauthorized);
    }
    check_trading(launch.phase)
}

/// Tests whether the lock of liquidity registered at time `now` would end at
/// a time that 64 bits can hold, which `initialize_lp` asks of a caller
/// whose registration is not refused.
pub fn lock_fits(launch: &LaunchState, now: i64) -> (fits: bool)
    ensures
        fits == lock_end_fits(*launch, now),
{
    match launch.config.anti_rug.lp_lock_duration {
        Some(duration) => now.checked_add(duration).is_some(),
        None => true,
    }
}

/// Registers a liquidity pool of `lp_amount` at time `now` and computes the
/// end of its lock. The launch is read, never changed. Refused for anyone but
/// the creator, for a finalized launch, and before trading is enabled. The
/// end of the lock has to fit in 64 bits only where the registration is not
/// refused.
pub fn initialize_lp(
    launch: &LaunchState,
    launch_key: Address,
    caller: &Address,
    lp_mint: Address,
    bump: u8,
    lp_amount: u64,
    now: i64,
) -> (outcome: Result<(LiquidityPoolState, LPInitialized), OneguardError>)
    requires
        liquidity_error(*launch, *caller) is None ==> lock_end_fits(*launch, now),
    ensures
        match outcome {
            Ok((pool, event)) => {
                &&& liquidity_error(*launch, *caller) is None
                &&& pool.bump == bump
                &&& pool.launch == launch_key
                &&& pool.lp_mint == lp_mint
                &&& pool.lp_amount == lp_amount
                &&& pool.created_at == now
                &&& match pool.locked_until {
                    Some(end) => lock_end(*launch, now) == Some(end as int),
                    None => lock_end(*launch, now) is None,
                }
                &&& event == (LPInitialized {
                    launch: launch_key,
                    lp_mint,
                    lp_amount,
                    locked_until: pool.locked_until,
                    timestamp: now,
                })
            },
            Err(e) => liquidity_error(*launch, *caller) == Some(e),
        },
{
    match check_liquidity(launch, caller) {
        Err(e) => {
            return Err(e);
        },
        Ok(_) => {},
    }
    let locked_until: Option<i64> = match launch.config.anti_rug.lp_lock_duration {
        Some(duration) => Some(now + duration),
        None => None,
    };
    let pool = LiquidityPoolState {
        bump,
        launch: launch_key,
        lp_mint,
        lp_amount,
        locked_until,
        created_at: now,
    };
    let event = LPInitialized { launch: launch_key, lp_mint, lp_amount, locked_until, timestamp: now };
    Ok((pool, event))
}

/// Finalizes the launch at time `now`: nothing about it changes afterwards.
/// Refused for anyone but the creator, and for a launch finalized before.
pub fn finalize_launch(
    launch: &mut LaunchState,
    launch_key: Address,
    caller: &Address,
    now: i64,
) -> (outcome: Result<LaunchFinalized, OneguardError>)
    ensures
        match outcome {
            Ok(event) => {
                &&& finalize_error(*old(launch), *caller) is None
                &&& *final(launch) == launch_after_finalize(*old(launch), now)
                &&& event == (LaunchFinalized {
                    launch: launch_key,
                    total_purchased: old(launch).total_purchased,
                    participant_count: old(launch).participant_count,
                    timestamp: now,
                })
            },
            Err(e) => {
                &&& finalize_error(*old(launch), *caller) == Some(e)
                &&& *final(launch) == *old(launch)
            },
        },
{
    if !caller.same(&launch.creator) {
        return Err(OneguardError::Unauthorized);
    }
    if !(launch.phase != LaunchPhase::Finalized) {
        return Err(OneguardError::LaunchFinalized);
    }
    launch.phase = LaunchPhase::Finalized;
    launch.finalized_at = Some(now);
    Ok(
        LaunchFinalized {
            launch: launch_key,
            total_purchased: launch.total_purchased,
            participant_count: launch.participant_count,
            timestamp: now,
        },
    )
}

} // verus!

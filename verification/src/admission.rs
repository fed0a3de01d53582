use vstd::prelude::*;
use crate::errors::OneguardError;
use crate::events::PurchaseExecuted;
use crate::state::{LaunchPhase, LaunchState, UserPurchaseState};

verus! {

/// Whether a wallet that holds `holding` units out of `supply` holds at most
/// `limit` percent of it. The two shares are compared as exact fractions, so
/// a holding of exactly `limit` percent is within the limit and one unit more
/// is not. Of an empty supply no holding is a share, and none is within a limit.
pub open spec fn within_concentration(holding: int, supply: int, limit: int) -> bool {
    supply > 0 && holding * 100 <= limit * supply
}

/// The error, if any, with which a phase refuses purchases and liquidity:
/// a finalized launch reports that it is finalized, a launch whose
/// authorities are not revoked yet that trading is not enabled.
pub open spec fn trading_guard(phase: LaunchPhase) -> Option<OneguardError> {
    if phase == LaunchPhase::Finalized {
        Some(OneguardError::LaunchFinalized)
    } else if !phase.allows_trading() {
        Some(OneguardError::TradingNotEnabled)
    } else {
        None
    }
}

/// The first rule that refuses a purchase of `amount` at time `now`, if any does.
///
/// The rules, in order: the phase allows trading; the wallet's new total fits
/// in 64 bits and under its cap; where one action per transaction is
/// configured and the wallet has bought before, at least one time unit has
/// passed since; the new total is within the concentration limit; the
/// launch's new total fits in 64 bits; neither counter is at its maximum.
pub open spec fn admission_error(
    launch: LaunchState,
    participant: UserPurchaseState,
    amount: u64,
    now: i64,
) -> Option<OneguardError> {
    let new_total = participant.total_purchased + amount;
    if trading_guard(launch.phase) is Some {
        trading_guard(launch.phase)
    } else if new_total > u64::MAX || new_total > launch.config.anti_snipe.max_buy_per_wallet {
        Some(OneguardError::MaxBuyExceeded)
    } else if launch.config.anti_bundle.one_action_per_tx && participant.purchase_count > 0 && now
        - participant.last_purchase_at < 1 {
        Some(OneguardError::PurchaseTooSoon)
    } else if !within_concentration(
        new_total,
        launch.config.usd1_config.total_supply as int,
        launch.config.anti_bundle.max_wallet_concentration as int,
    ) {
        Some(OneguardError::ConcentrationExceeded)
    } else if launch.total_purchased + amount > u64::MAX {
        Some(OneguardError::MaxBuyExceeded)
    } else if participant.purchase_count == u32::MAX || (participant.purchase_count == 0
        && launch.participant_count == u64::MAX) {
        Some(OneguardError::MaxBuyExceeded)
    } else {
        None
    }
}

/// The wallet's record after an admitted purchase.
pub open spec fn participant_after_purchase(
    participant: UserPurchaseState,
    amount: u64,
    now: i64,
) -> UserPurchaseState {
    UserPurchaseState {
        total_purchased: (participant.total_purchased + amount) as u64,
        purchase_count: (participant.purchase_count + 1) as u32,
        last_purchase_at: now,
        ..participant
    }
}

/// The launch's record after an admitted purchase by the wallet of `participant`.
/// A wallet is counted when its first purchase is admitted.
pub open spec fn launch_after_purchase(
    launch: LaunchState,
    participant: UserPurchaseState,
    amount: u64,
) -> LaunchState {
    LaunchState {
        total_purchased: (launch.total_purchased + amount) as u64,
        participant_count: if participant.purchase_count == 0 {
            (launch.participant_count + 1) as u64
        } else {
            launch.participant_count
        },
        ..launch
    }
}

/// The new values that an admitted purchase writes.
#[derive(Clone, Copy, Debug, PartialEq, Eq)]
pub struct PurchaseDelta {
    pub user_total_purchased: u64,
    pub user_purchase_count: u32,
    pub last_purchase_at: i64,
    pub launch_total_purchased: u64,
    pub participant_count: u64,
}

/// The values that an admitted purchase writes: those of the two records after it.
pub open spec fn purchase_delta(
    launch: LaunchState,
    participant: UserPurchaseState,
    amount: u64,
    now: i64,
) -> PurchaseDelta {
    PurchaseDelta {
        user_total_purchased: participant_after_purchase(participant, amount, now).total_purchased,
        user_purchase_count: participant_after_purchase(participant, amount, now).purchase_count,
        last_purchase_at: now,
        launch_total_purchased: launch_after_purchase(launch, participant, amount).total_purchased,
        participant_count: launch_after_purchase(launch, participant, amount).participant_count,
    }
}

/// What `admit_purchase` decides: the error of the first rule that refuses, or the values to write.
pub open spec fn admission(
    launch: LaunchState,
    participant: UserPurchaseState,
    amount: u64,
    now: i64,
) -> Result<PurchaseDelta, OneguardError> {
    match admission_error(launch, participant, amount, now) {
        Some(e) => Err(e),
        None => Ok(purchase_delta(launch, participant, amount, now)),
    }
}

/// Decides whether a wallet holding `holding` out of `supply` is within `limit` percent.
pub fn concentration_allowed(holding: u64, supply: u64, limit: u8) -> (allowed: bool)
    ensures
        allowed == within_concentration(holding as int, supply as int, limit as int),
{
    if supply == 0 {
        return false;
    }
    assert(limit as int * supply as int <= 255 * 0xffff_ffff_ffff_ffff) by (nonlinear_arith)
        requires
            0 <= limit as int <= 255,
            0 <= supply as int <= 0xffff_ffff_ffff_ffff,
    ;
    let share: u128 = (holding as u128) * 100;
    let bound: u128 = (limit as u128) * (supply as u128);
    share <= bound
}

/// Tests whether a phase allows purchases and liquidity registration.
pub fn check_trading(phase: LaunchPhase) -> (checked: Result<(), OneguardError>)
    ensures
        checked is Ok <==> trading_guard(phase) is None,
        checked matches Err(e) ==> trading_guard(phase) == Some(e),
{
    if phase == LaunchPhase::Finalized {
        return Err(OneguardError::LaunchFinalized);
    }
    if !(phase == LaunchPhase::TradingRestricted || phase == LaunchPhase::TradingOpen) {
        return Err(OneguardError::TradingNotEnabled);
    }
    Ok(())
}

/// Decides a purchase of `amount` by the wallet of `participant` at time `now`,
/// and changes nothing. A wallet without a record yet is given as a record
/// with no purchases.
pub fn admit_purchase(
    launch: &LaunchState,
    participant: &UserPurchaseState,
    amount: u64,
    now: i64,
) -> (decision: Result<PurchaseDelta, OneguardError>)
    ensures
        decision == admission(*launch, *participant, amount, now),
{
    match check_trading(launch.phase) {
        Err(e) => {
            return Err(e);
        },
        Ok(_) => {},
    }
    let new_total: u64 = match participant.total_purchased.checked_add(amount) {
        Some(t) => t,
        None => {
            return Err(OneguardError::MaxBuyExceeded);
        },
    };
    if new_total > launch.config.anti_snipe.max_buy_per_wallet {
        return Err(OneguardError::MaxBuyExceeded);
    }
    if launch.config.anti_bundle.one_action_per_tx && participant.purchase_count > 0 && now
        <= participant.last_purchase_at {
        return Err(OneguardError::PurchaseTooSoon);
    }
    if !concentration_allowed(
        new_total,
        launch.config.usd1_config.total_supply,
        launch.config.anti_bundle.max_wallet_concentration,
    ) {
        return Err(OneguardError::ConcentrationExceeded);
    }
    let launch_total: u64 = match launch.total_purchased.checked_add(amount) {
        Some(t) => t,
        None => {
            return Err(OneguardError::MaxBuyExceeded);
        },
    };
    let count: u32 = match participant.purchase_count.checked_add(1) {
        Some(c) => c,
        None => {
            return Err(OneguardError::MaxBuyExceeded);
        },
    };
    let participants: u64 = if participant.purchase_count == 0 {
        match launch.participant_count.checked_add(1) {
            Some(p) => p,
            None => {
                return Err(OneguardError::MaxBuyExceeded);
            },
        }
    } else {
        launch.participant_count
    };
    Ok(
        PurchaseDelta {
            user_total_purchased: new_total,
            user_purchase_count: count,
            last_purchase_at: now,
            launch_total_purchased: launch_total,
            participant_count: participants,
        },
    )
}

/// Admits or refuses a purchase of `amount` by the wallet of `user_purchase` at
/// time `now`. An admitted purchase is written to both records and reported,
/// under the launch and the wallet that the wallet's record names; a refused
/// one leaves both records as they were.
pub fn purchase(
    launch: &mut LaunchState,
    user_purchase: &mut UserPurchaseState,
    amount: u64,
    now: i64,
) -> (outcome: Result<PurchaseExecuted, OneguardError>)
    ensures
        match outcome {
            Ok(event) => {
                &&& admission_error(*old(launch), *old(user_purchase), amount, now) is None
                &&& *final(launch) == launch_after_purchase(
                    *old(launch),
                    *old(user_purchase),
                    amount,
                )
                &&& *final(user_purchase) == participant_after_purchase(
                    *old(user_purchase),
                    amount,
                    now,
                )
                &&& event == (PurchaseExecuted {
                    launch: old(user_purchase).launch,
                    user: old(user_purchase).user,
                    amount,
                    total_user_purchased: final(user_purchase).total_purchased,
                    total_launch_purchased: final(launch).total_purchased,
                    timestamp: now,
                })
            },
            Err(e) => {
                &&& admission_error(*old(launch), *old(user_purchase), amount, now) == Some(e)
                &&& *final(launch) == *old(launch)
                &&& *final(user_purchase) == *old(user_purchase)
            },
        },
{
    let delta = match admit_purchase(launch, user_purchase, amount, now) {
        Ok(d) => d,
        Err(e) => {
            return Err(e);
        },
    };
    user_purchase.total_purchased = delta.user_total_purchased;
    user_purchase.purchase_count = delta.user_purchase_count;
    user_purchase.last_purchase_at = delta.last_purchase_at;
    launch.total_purchased = delta.launch_total_purchased;
    launch.participant_count = delta.participant_count;
    Ok(
        PurchaseExecuted {
            launch: user_purchase.launch,
            user: user_purchase.user,
            amount,
            total_user_purchased: delta.user_total_purchased,
            total_launch_purchased: delta.launch_total_purchased,
            timestamp: now,
        },
    )
}

} // verus!

use oneguard::admission::purchase;
use oneguard::errors::OneguardError;
use oneguard::events::{AuthoritiesRevoked, LPInitialized, LaunchFinalized, TradingEnabled};
use oneguard::state::{
    Address, AntiBundleConfig, AntiRugConfig, AntiSnipeConfig, LaunchConfigData, LaunchPhase,
    LaunchState, LiquidityPoolState, USD1LaunchConfig, UserPurchaseState,
};
use oneguard::transitions::{
    check_liquidity, enable_trading, finalize_launch, initialize_launch, initialize_lp, lock_fits,
    plan_revocation, revoke_authorities, RevocationPlan,
};

fn id(tag: u8) -> Address {
    Address { bytes: [tag; 32] }
}

const LAUNCH: u8 = 9;
const CREATOR: u8 = 1;
const MINT: u8 = 2;
const STRANGER: u8 = 66;

fn launch_with(delay: Option<i64>, lock: Option<i64>) -> LaunchState {
    let config = LaunchConfigData {
        anti_snipe: AntiSnipeConfig {
            max_buy_per_wallet: 1000,
            phased_unlock: false,
            unlock_duration: None,
            fair_launch_delay: delay,
        },
        anti_bundle: AntiBundleConfig {
            detect_bundles: false,
            max_wallet_concentration: 5,
            one_action_per_tx: false,
        },
        anti_rug: AntiRugConfig {
            fixed_supply: true,
            revoke_mint_authority: true,
            revoke_freeze_authority: true,
            lp_lock_duration: lock,
        },
        usd1_config: USD1LaunchConfig {
            initial_price: 1,
            total_supply: 100_000,
            liquidity_amount: 0,
            creator_allocation: 0,
        },
    };
    initialize_launch(id(LAUNCH), id(CREATOR), id(MINT), 255, config, 0).unwrap().0
}

#[test]
fn fair_launch_delay_is_enforced() {
    let mut launch = launch_with(Some(60), None);
    let revoked = revoke_authorities(&mut launch, id(LAUNCH), &id(CREATOR), 0).unwrap();
    assert_eq!(launch.launched_at, Some(0));
    assert_eq!(launch.phase, LaunchPhase::TradingRestricted);
    assert_eq!(
        revoked,
        AuthoritiesRevoked {
            launch: id(LAUNCH),
            token_mint: id(MINT),
            mint_authority_revoked: true,
            freeze_authority_revoked: true,
            timestamp: 0,
        }
    );
    let before = launch;
    assert_eq!(
        enable_trading(&mut launch, id(LAUNCH), &id(CREATOR), 30),
        Err(OneguardError::FairLaunchDelayNotElapsed)
    );
    assert_eq!(
        enable_trading(&mut launch, id(LAUNCH), &id(CREATOR), 59),
        Err(OneguardError::FairLaunchDelayNotElapsed)
    );
    assert_eq!(launch, before);
    assert_eq!(
        enable_trading(&mut launch, id(LAUNCH), &id(CREATOR), 60),
        Ok(TradingEnabled { launch: id(LAUNCH), timestamp: 60 })
    );
    assert_eq!(launch.phase, LaunchPhase::TradingOpen);
    assert_eq!(launch.launched_at, Some(0));
}

#[test]
fn delay_is_measured_without_overflow() {
    let mut launch = launch_with(Some(i64::MAX), None);
    revoke_authorities(&mut launch, id(LAUNCH), &id(CREATOR), i64::MIN).unwrap();
    assert!(enable_trading(&mut launch, id(LAUNCH), &id(CREATOR), i64::MAX).is_ok());
    let mut late = launch_with(Some(1), None);
    revoke_authorities(&mut late, id(LAUNCH), &id(CREATOR), i64::MAX).unwrap();
    assert_eq!(
        enable_trading(&mut late, id(LAUNCH), &id(CREATOR), i64::MIN),
        Err(OneguardError::FairLaunchDelayNotElapsed)
    );
}

#[test]
fn trading_opens_at_once_without_a_delay() {
    let mut launch = launch_with(None, None);
    revoke_authorities(&mut launch, id(LAUNCH), &id(CREATOR), 500).unwrap();
    assert!(enable_trading(&mut launch, id(LAUNCH), &id(CREATOR), 0).is_ok());
    assert_eq!(launch.phase, LaunchPhase::TradingOpen);
}

#[test]
fn delay_without_a_launch_time_is_refused() {
    let mut launch = launch_with(Some(60), None);
    launch.phase = LaunchPhase::TradingRestricted;
    assert_eq!(
        enable_trading(&mut launch, id(LAUNCH), &id(CREATOR), 100),
        Err(OneguardError::AuthoritiesNotRevoked)
    );
    assert_eq!(launch.phase, LaunchPhase::TradingRestricted);
}

#[test]
fn revocation_twice_is_refused() {
    let mut launch = launch_with(None, None);
    revoke_authorities(&mut launch, id(LAUNCH), &id(CREATOR), 10).unwrap();
    let before = launch;
    assert_eq!(
        revoke_authorities(&mut launch, id(LAUNCH), &id(CREATOR), 20),
        Err(OneguardError::TradingAlreadyOpen)
    );
    assert_eq!(launch, before);
    assert_eq!(launch.launched_at, Some(10));
    assert_eq!(
        plan_revocation(&launch, &id(CREATOR)),
        Err(OneguardError::TradingAlreadyOpen)
    );
}

#[test]
fn revocation_plan_follows_the_config() {
    let mut launch = launch_with(None, None);
    assert_eq!(
        plan_revocation(&launch, &id(CREATOR)),
        Ok(RevocationPlan { revoke_mint_authority: true, revoke_freeze_authority: true })
    );
    launch.config.anti_rug.revoke_freeze_authority = false;
    assert_eq!(
        plan_revocation(&launch, &id(CREATOR)),
        Ok(RevocationPlan { revoke_mint_authority: true, revoke_freeze_authority: false })
    );
    let event = revoke_authorities(&mut launch, id(LAUNCH), &id(CREATOR), 1).unwrap();
    assert!(event.mint_authority_revoked);
    assert!(!event.freeze_authority_revoked);
    assert_eq!(plan_revocation(&launch_with(None, None), &id(STRANGER)), Err(OneguardError::Unauthorized));
}

#[test]
fn enabling_needs_the_restricted_phase() {
    let mut launch = launch_with(None, None);
    assert_eq!(
        enable_trading(&mut launch, id(LAUNCH), &id(CREATOR), 1),
        Err(OneguardError::TradingAlreadyOpen)
    );
    revoke_authorities(&mut launch, id(LAUNCH), &id(CREATOR), 1).unwrap();
    enable_trading(&mut launch, id(LAUNCH), &id(CREATOR), 2).unwrap();
    assert_eq!(
        enable_trading(&mut launch, id(LAUNCH), &id(CREATOR), 3),
        Err(OneguardError::TradingAlreadyOpen)
    );
    finalize_launch(&mut launch, id(LAUNCH), &id(CREATOR), 4).unwrap();
    assert_eq!(
        enable_trading(&mut launch, id(LAUNCH), &id(CREATOR), 5),
        Err(OneguardError::TradingAlreadyOpen)
    );
}

#[test]
fn only_the_creator_may_move_the_launch() {
    let mut launch = launch_with(None, Some(5));
    let fresh = launch;
    assert_eq!(
        revoke_authorities(&mut launch, id(LAUNCH), &id(STRANGER), 1),
        Err(OneguardError::Unauthorized)
    );
    assert_eq!(
        enable_trading(&mut launch, id(LAUNCH), &id(STRANGER), 1),
        Err(OneguardError::Unauthorized)
    );
    assert_eq!(
        initialize_lp(&launch, id(LAUNCH), &id(STRANGER), id(3), 1, 10, 1).err(),
        Some(OneguardError::Unauthorized)
    );
    assert_eq!(
        finalize_launch(&mut launch, id(LAUNCH), &id(STRANGER), 1),
        Err(OneguardError::Unauthorized)
    );
    assert_eq!(launch, fresh);
    launch.phase = LaunchPhase::Finalized;
    assert_eq!(
        finalize_launch(&mut launch, id(LAUNCH), &id(STRANGER), 1),
        Err(OneguardError::Unauthorized)
    );
}

#[test]
fn finalize_twice_is_refused() {
    let mut launch = launch_with(None, None);
    revoke_authorities(&mut launch, id(LAUNCH), &id(CREATOR), 1).unwrap();
    let mut w = UserPurchaseState::new(0, id(LAUNCH), id(40));
    purchase(&mut launch, &mut w, 300, 2).unwrap();
    assert_eq!(
        finalize_launch(&mut launch, id(LAUNCH), &id(CREATOR), 77),
        Ok(LaunchFinalized {
            launch: id(LAUNCH),
            total_purchased: 300,
            participant_count: 1,
            timestamp: 77,
        })
    );
    assert_eq!(launch.phase, LaunchPhase::Finalized);
    assert_eq!(launch.finalized_at, Some(77));
    let before = launch;
    assert_eq!(
        finalize_launch(&mut launch, id(LAUNCH), &id(CREATOR), 99),
        Err(OneguardError::LaunchFinalized)
    );
    assert_eq!(launch, before);
    assert_eq!(launch.finalized_at, Some(77));
}

#[test]
fn finalize_from_any_earlier_phase() {
    let mut fresh = launch_with(None, None);
    assert!(finalize_launch(&mut fresh, id(LAUNCH), &id(CREATOR), 5).is_ok());
    assert_eq!(fresh.phase, LaunchPhase::Finalized);
    assert_eq!(fresh.launched_at, None);
    let mut restricted = launch_with(None, None);
    revoke_authorities(&mut restricted, id(LAUNCH), &id(CREATOR), 1).unwrap();
    assert!(finalize_launch(&mut restricted, id(LAUNCH), &id(CREATOR), 5).is_ok());
    assert_eq!(restricted.finalized_at, Some(5));
    assert_eq!(restricted.launched_at, Some(1));
}

#[test]
fn finalized_launch_refuses_everything() {
    let mut launch = launch_with(None, None);
    revoke_authorities(&mut launch, id(LAUNCH), &id(CREATOR), 1).unwrap();
    enable_trading(&mut launch, id(LAUNCH), &id(CREATOR), 2).unwrap();
    finalize_launch(&mut launch, id(LAUNCH), &id(CREATOR), 3).unwrap();
    let before = launch;
    let mut w = UserPurchaseState::new(0, id(LAUNCH), id(40));
    assert!(revoke_authorities(&mut launch, id(LAUNCH), &id(CREATOR), 4).is_err());
    assert!(enable_trading(&mut launch, id(LAUNCH), &id(CREATOR), 4).is_err());
    assert!(finalize_launch(&mut launch, id(LAUNCH), &id(CREATOR), 4).is_err());
    assert_eq!(
        finalize_launch(&mut launch, id(LAUNCH), &id(CREATOR), 4),
        Err(OneguardError::LaunchFinalized)
    );
    assert_eq!(purchase(&mut launch, &mut w, 1, 4), Err(OneguardError::LaunchFinalized));
    assert_eq!(
        initialize_lp(&launch, id(LAUNCH), &id(CREATOR), id(3), 1, 10, 4).err(),
        Some(OneguardError::LaunchFinalized)
    );
    assert_eq!(
        check_liquidity(&launch, &id(CREATOR)),
        Err(OneguardError::LaunchFinalized)
    );
    assert_eq!(
        revoke_authorities(&mut launch, id(LAUNCH), &id(CREATOR), 4),
        Err(OneguardError::TradingAlreadyOpen)
    );
    assert_eq!(
        enable_trading(&mut launch, id(LAUNCH), &id(CREATOR), 4),
        Err(OneguardError::TradingAlreadyOpen)
    );
    assert_eq!(launch, before);
    assert_eq!(w, UserPurchaseState::new(0, id(LAUNCH), id(40)));
}

#[test]
fn phase_never_moves_back() {
    fn rank(p: LaunchPhase) -> u8 {
        match p {
            LaunchPhase::Initialized => 0,
            LaunchPhase::TradingRestricted => 1,
            LaunchPhase::TradingOpen => 2,
            LaunchPhase::Finalized => 3,
        }
    }
    let mut launch = launch_with(None, None);
    let mut w = UserPurchaseState::new(0, id(LAUNCH), id(40));
    let mut last = rank(launch.phase);
    for round in 0..3 {
        for op in [2u8, 0, 4, 1, 0, 4, 1, 3, 0, 1, 4, 3] {
            let now = round * 100 + op as i64;
            match op {
                0 => {
                    let _ = revoke_authorities(&mut launch, id(LAUNCH), &id(CREATOR), now);
                }
                1 => {
                    let _ = enable_trading(&mut launch, id(LAUNCH), &id(CREATOR), now);
                }
                2 => {
                    let _ = purchase(&mut launch, &mut w, 1, now);
                }
                3 => {
                    let _ = finalize_launch(&mut launch, id(LAUNCH), &id(CREATOR), now);
                }
                _ => {
                    let _ = initialize_lp(&launch, id(LAUNCH), &id(CREATOR), id(3), 1, 10, now);
                }
            }
            assert!(rank(launch.phase) >= last);
            last = rank(launch.phase);
        }
    }
    assert_eq!(launch.phase, LaunchPhase::Finalized);
}

#[test]
fn liquidity_lock_ends_after_the_duration() {
    let mut launch = launch_with(None, Some(3600));
    assert_eq!(
        initialize_lp(&launch, id(LAUNCH), &id(CREATOR), id(3), 7, 5000, 100).err(),
        Some(OneguardError::TradingNotEnabled)
    );
    revoke_authorities(&mut launch, id(LAUNCH), &id(CREATOR), 1).unwrap();
    let before = launch;
    let (pool, event) =
        initialize_lp(&launch, id(LAUNCH), &id(CREATOR), id(3), 7, 5000, 100).unwrap();
    assert_eq!(
        pool,
        LiquidityPoolState {
            bump: 7,
            launch: id(LAUNCH),
            lp_mint: id(3),
            lp_amount: 5000,
            locked_until: Some(3700),
            created_at: 100,
        }
    );
    assert_eq!(
        event,
        LPInitialized {
            launch: id(LAUNCH),
            lp_mint: id(3),
            lp_amount: 5000,
            locked_until: Some(3700),
            timestamp: 100,
        }
    );
    assert_eq!(launch, before);
    enable_trading(&mut launch, id(LAUNCH), &id(CREATOR), 2).unwrap();
    assert!(initialize_lp(&launch, id(LAUNCH), &id(CREATOR), id(3), 7, 5000, 100).is_ok());
}

#[test]
fn liquidity_without_a_lock_is_unlocked() {
    let mut launch = launch_with(None, None);
    revoke_authorities(&mut launch, id(LAUNCH), &id(CREATOR), 1).unwrap();
    let (pool, event) =
        initialize_lp(&launch, id(LAUNCH), &id(CREATOR), id(3), 7, 0, 100).unwrap();
    assert_eq!(pool.locked_until, None);
    assert_eq!(event.locked_until, None);
    assert_eq!(pool.created_at, 100);
}

#[test]
fn lock_end_must_fit_in_the_clock() {
    let mut launch = launch_with(None, Some(10));
    revoke_authorities(&mut launch, id(LAUNCH), &id(CREATOR), 1).unwrap();
    assert!(lock_fits(&launch, i64::MAX - 10));
    assert!(!lock_fits(&launch, i64::MAX - 9));
    let (pool, _) =
        initialize_lp(&launch, id(LAUNCH), &id(CREATOR), id(3), 7, 1, i64::MAX - 10).unwrap();
    assert_eq!(pool.locked_until, Some(i64::MAX));
    launch.config.anti_rug.lp_lock_duration = Some(-10);
    assert!(lock_fits(&launch, i64::MIN + 10));
    assert!(!lock_fits(&launch, i64::MIN + 9));
    launch.config.anti_rug.lp_lock_duration = None;
    assert!(lock_fits(&launch, i64::MAX));
    assert!(lock_fits(&launch, i64::MIN));
}

#[test]
fn refused_registration_needs_no_lock_end() {
    let mut launch = launch_with(None, Some(i64::MAX));
    assert!(!lock_fits(&launch, 1));
    assert_eq!(check_liquidity(&launch, &id(CREATOR)), Err(OneguardError::TradingNotEnabled));
    assert_eq!(
        initialize_lp(&launch, id(LAUNCH), &id(CREATOR), id(3), 7, 5, 1).err(),
        Some(OneguardError::TradingNotEnabled)
    );
    assert_eq!(
        initialize_lp(&launch, id(LAUNCH), &id(STRANGER), id(3), 7, 5, 1).err(),
        Some(OneguardError::Unauthorized)
    );
    launch.phase = LaunchPhase::Finalized;
    assert_eq!(
        initialize_lp(&launch, id(LAUNCH), &id(CREATOR), id(3), 7, 5, 1).err(),
        Some(OneguardError::LaunchFinalized)
    );
    launch.phase = LaunchPhase::TradingOpen;
    assert_eq!(check_liquidity(&launch, &id(STRANGER)), Err(OneguardError::Unauthorized));
    assert_eq!(check_liquidity(&launch, &id(CREATOR)), Ok(()));
    assert!(lock_fits(&launch, 0));
    let (pool, _) = initialize_lp(&launch, id(LAUNCH), &id(CREATOR), id(3), 7, 5, 0).unwrap();
    assert_eq!(pool.locked_until, Some(i64::MAX));
}

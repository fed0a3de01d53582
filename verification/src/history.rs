use vstd::prelude::*;
use crate::admission::{
    admission_error,
    launch_after_purchase,
    participant_after_purchase,
    trading_guard,
    within_concentration,
};
use crate::errors::OneguardError;
use crate::state::{Address, LaunchConfigData, LaunchPhase, LaunchState, UserPurchaseState};
use crate::transitions::{
    config_error,
    enable_error,
    finalize_error,
    fresh_launch,
    launch_after_enable,
    launch_after_finalize,
    launch_after_revoke,
    liquidity_error,
    revoke_error,
    well_formed,
};

verus! {

/// A launch together with the records of the wallets that may buy in it.
/// A wallet is known by its place in `wallets`.
pub struct Book {
    pub launch: LaunchState,
    pub wallets: Seq<UserPurchaseState>,
}

/// One call on a launch or on a wallet's record.
pub enum Operation {
    RevokeAuthorities { caller: Address, now: i64 },
    EnableTrading { caller: Address, now: i64 },
    InitializeLp { caller: Address, lp_amount: u64, now: i64 },
    FinalizeLaunch { caller: Address, now: i64 },
    Purchase { wallet: int, amount: u64, now: i64 },
}

/// The book after one operation: what the operation's function leaves behind.
/// A refused operation, a purchase by a wallet that the book does not hold,
/// and the registration of liquidity, admitted or not, leave the book as it
/// was.
pub open spec fn step(book: Book, op: Operation) -> Book {
    match op {
        Operation::RevokeAuthorities { caller, now } => if revoke_error(book.launch, caller)
            is None {
            Book { launch: launch_after_revoke(book.launch, now), ..book }
        } else {
            book
        },
        Operation::EnableTrading { caller, now } => if enable_error(book.launch, caller, now)
            is None {
            Book { launch: launch_after_enable(book.launch), ..book }
        } else {
            book
        },
        Operation::InitializeLp { .. } => book,
        Operation::FinalizeLaunch { caller, now } => if finalize_error(book.launch, caller)
            is None {
            Book { launch: launch_after_finalize(book.launch, now), ..book }
        } else {
            book
        },
        Operation::Purchase { wallet, amount, now } => if 0 <= wallet < book.wallets.len()
            && admission_error(book.launch, book.wallets[wallet], amount, now) is None {
            Book {
                launch: launch_after_purchase(book.launch, book.wallets[wallet], amount),
                wallets: book.wallets.update(
                    wallet,
                    participant_after_purchase(book.wallets[wallet], amount, now),
                ),
            }
        } else {
            book
        },
    }
}

/// The book after a sequence of operations, applied first to last.
pub open spec fn run(book: Book, ops: Seq<Operation>) -> Book
    decreases ops.len(),
{
    if ops.len() == 0 {
        book
    } else {
        step(run(book, ops.drop_last()), ops.last())
    }
}

/// The sum of what the wallets have bought.
pub open spec fn total_of(wallets: Seq<UserPurchaseState>) -> int
    decreases wallets.len(),
{
    if wallets.len() == 0 {
        0
    } else {
        total_of(wallets.drop_last()) + wallets.last().total_purchased
    }
}

/// The number of wallets with at least one purchase.
pub open spec fn buyers_of(wallets: Seq<UserPurchaseState>) -> int
    decreases wallets.len(),
{
    if wallets.len() == 0 {
        0
    } else {
        buyers_of(wallets.drop_last()) + if wallets.last().purchase_count > 0 {
            1int
        } else {
            0int
        }
    }
}

/// Whether every wallet's total is within the cap per wallet.
pub open spec fn within_caps(book: Book) -> bool {
    forall|i: int|
        0 <= i < book.wallets.len() ==> #[trigger] book.wallets[i].total_purchased
            <= book.launch.config.anti_snipe.max_buy_per_wallet
}

/// Whether the launch's counters agree with the wallets' records: its total
/// is the sum of theirs, and its count is the number of wallets that bought.
pub open spec fn balanced(book: Book) -> bool {
    &&& book.launch.total_purchased == total_of(book.wallets)
    &&& book.launch.participant_count == buyers_of(book.wallets)
}

/// A book at the creation of a launch: no wallet has bought.
pub open spec fn opening(book: Book) -> bool {
    &&& book.launch.phase == LaunchPhase::Initialized
    &&& book.launch.total_purchased == 0
    &&& book.launch.participant_count == 0
    &&& forall|i: int|
        0 <= i < book.wallets.len() ==> (#[trigger] book.wallets[i]).total_purchased == 0
            && book.wallets[i].purchase_count == 0
}

proof fn lemma_update_total(wallets: Seq<UserPurchaseState>, i: int, record: UserPurchaseState)
    requires
        0 <= i < wallets.len(),
    ensures
        total_of(wallets.update(i, record)) == total_of(wallets) - wallets[i].total_purchased
            + record.total_purchased,
        buyers_of(wallets.update(i, record)) == buyers_of(wallets) - (if wallets[i].purchase_count
            > 0 {
            1int
        } else {
            0int
        }) + (if record.purchase_count > 0 {
            1int
        } else {
            0int
        }),
    decreases wallets.len(),
{
    let updated = wallets.update(i, record);
    if i == wallets.len() - 1 {
        assert(updated.drop_last() =~= wallets.drop_last());
    } else {
        assert(updated.drop_last() =~= wallets.drop_last().update(i, record));
        lemma_update_total(wallets.drop_last(), i, record);
    }
}

proof fn lemma_untouched_total(wallets: Seq<UserPurchaseState>)
    requires
        forall|i: int|
            0 <= i < wallets.len() ==> (#[trigger] wallets[i]).total_purchased == 0
                && wallets[i].purchase_count == 0,
    ensures
        total_of(wallets) == 0,
        buyers_of(wallets) == 0,
    decreases wallets.len(),
{
    if wallets.len() > 0 {
        lemma_untouched_total(wallets.drop_last());
    }
}

/// At the creation of a launch its counters agree with the wallets' records
/// and every wallet is within the cap.
pub proof fn opening_is_balanced(book: Book)
    requires
        opening(book),
    ensures
        balanced(book),
        within_caps(book),
{
    lemma_untouched_total(book.wallets);
}

/// Whether nothing in `after` has gone back from `before`: the phase has not
/// moved backwards, no counter of the launch or of a wallet has decreased,
/// and the configuration, the creator and the number of wallets are the same.
pub open spec fn not_behind(before: Book, after: Book) -> bool {
    &&& after.launch.phase.rank() >= before.launch.phase.rank()
    &&& after.launch.config == before.launch.config
    &&& after.launch.creator == before.launch.creator
    &&& after.launch.total_purchased >= before.launch.total_purchased
    &&& after.launch.participant_count >= before.launch.participant_count
    &&& after.wallets.len() == before.wallets.len()
    &&& forall|i: int|
        0 <= i < before.wallets.len() ==> (#[trigger] after.wallets[i]).total_purchased
            >= before.wallets[i].total_purchased && after.wallets[i].purchase_count
            >= before.wallets[i].purchase_count
}

/// No operation moves a launch's phase backwards, lowers a counter, changes
/// the configuration or the creator, or adds or removes a wallet.
pub proof fn step_only_advances(book: Book, op: Operation)
    ensures
        not_behind(book, step(book, op)),
{
}

/// Over any sequence of operations the phase of a launch only moves forward
/// in the order initialized, restricted, open, finalized; no counter
/// decreases; and the configuration stays what it was.
pub proof fn phase_only_advances(book: Book, ops: Seq<Operation>)
    ensures
        not_behind(book, run(book, ops)),
    decreases ops.len(),
{
    if ops.len() > 0 {
        phase_only_advances(book, ops.drop_last());
        step_only_advances(run(book, ops.drop_last()), ops.last());
    }
}

/// A launch as it is created with a valid configuration is well formed.
pub proof fn fresh_launch_is_well_formed(
    creator: Address,
    token_mint: Address,
    bump: u8,
    config: LaunchConfigData,
    now: i64,
)
    requires
        config_error(config) is None,
    ensures
        well_formed(fresh_launch(creator, token_mint, bump, config, now)),
{
}

/// An operation on a well-formed launch leaves it well formed, and leaves
/// a launch time and a time of finalization that were on record as they were:
/// each is set once.
pub proof fn step_keeps_well_formed(book: Book, op: Operation)
    requires
        well_formed(book.launch),
    ensures
        well_formed(step(book, op).launch),
        book.launch.launched_at is Some ==> step(book, op).launch.launched_at
            == book.launch.launched_at,
        book.launch.finalized_at is Some ==> step(book, op).launch.finalized_at
            == book.launch.finalized_at,
{
}

/// Any sequence of operations on a well-formed launch leaves it well formed,
/// with the launch time and the time of finalization that were on record.
pub proof fn run_keeps_well_formed(book: Book, ops: Seq<Operation>)
    requires
        well_formed(book.launch),
    ensures
        well_formed(run(book, ops).launch),
        book.launch.launched_at is Some ==> run(book, ops).launch.launched_at
            == book.launch.launched_at,
        book.launch.finalized_at is Some ==> run(book, ops).launch.finalized_at
            == book.launch.finalized_at,
    decreases ops.len(),
{
    if ops.len() > 0 {
        run_keeps_well_formed(book, ops.drop_last());
        step_keeps_well_formed(run(book, ops.drop_last()), ops.last());
    }
}

/// On a well-formed launch the opening of trading never reports that the
/// authorities were not revoked: in the restricted phase the launch time is
/// on record.
pub proof fn revocation_is_on_record(launch: LaunchState, caller: Address, now: i64)
    requires
        well_formed(launch),
    ensures
        enable_error(launch, caller, now) != Some(OneguardError::AuthoritiesNotRevoked),
{
}

/// A finalized launch refuses every operation, whoever calls and whenever:
/// a purchase, and a second finalization or a liquidity registration by its
/// creator, with `LaunchFinalized`; revocation and the opening of trading by
/// its creator with `TradingAlreadyOpen`.
pub proof fn finalized_refuses(
    launch: LaunchState,
    caller: Address,
    participant: UserPurchaseState,
    amount: u64,
    now: i64,
)
    requires
        launch.phase == LaunchPhase::Finalized,
    ensures
        finalize_error(launch, caller) is Some,
        revoke_error(launch, caller) is Some,
        enable_error(launch, caller, now) is Some,
        liquidity_error(launch, caller) is Some,
        caller == launch.creator ==> finalize_error(launch, caller) == Some(
            OneguardError::LaunchFinalized,
        ),
        caller == launch.creator ==> revoke_error(launch, caller) == Some(
            OneguardError::TradingAlreadyOpen,
        ),
        caller == launch.creator ==> enable_error(launch, caller, now) == Some(
            OneguardError::TradingAlreadyOpen,
        ),
        caller == launch.creator ==> liquidity_error(launch, caller) == Some(
            OneguardError::LaunchFinalized,
        ),
        admission_error(launch, participant, amount, now) == Some(
            OneguardError::LaunchFinalized,
        ),
{
}

/// Once a launch is finalized, no sequence of operations changes it or any
/// wallet's record.
pub proof fn finalized_is_absorbing(book: Book, ops: Seq<Operation>)
    requires
        book.launch.phase == LaunchPhase::Finalized,
    ensures
        run(book, ops) == book,
    decreases ops.len(),
{
    if ops.len() > 0 {
        finalized_is_absorbing(book, ops.drop_last());
    }
}

/// An operation keeps every wallet within the cap, and keeps the launch's
/// counters in agreement with the wallets' records.
pub proof fn step_keeps_balance(book: Book, op: Operation)
    requires
        within_caps(book),
        balanced(book),
    ensures
        within_caps(step(book, op)),
        balanced(step(book, op)),
{
    match op {
        Operation::Purchase { wallet, amount, now } => {
            if 0 <= wallet < book.wallets.len() && admission_error(
                book.launch,
                book.wallets[wallet],
                amount,
                now,
            ) is None {
                let record = participant_after_purchase(book.wallets[wallet], amount, now);
                lemma_update_total(book.wallets, wallet, record);
                let after = step(book, op);
                assert forall|i: int| 0 <= i < after.wallets.len() implies (
                #[trigger] after.wallets[i]).total_purchased
                    <= after.launch.config.anti_snipe.max_buy_per_wallet by {
                    if i != wallet {
                        assert(after.wallets[i] == book.wallets[i]);
                    }
                }
            }
        },
        _ => {},
    }
}

/// Any sequence of operations keeps every wallet within the cap, and keeps
/// the launch's counters in agreement with the wallets' records.
pub proof fn run_keeps_balance(book: Book, ops: Seq<Operation>)
    requires
        within_caps(book),
        balanced(book),
    ensures
        within_caps(run(book, ops)),
        balanced(run(book, ops)),
    decreases ops.len(),
{
    if ops.len() > 0 {
        run_keeps_balance(book, ops.drop_last());
        step_keeps_balance(run(book, ops.drop_last()), ops.last());
    }
}

/// After any sequence of operations on a launch as it was created, every
/// wallet's total is within the cap per wallet, the launch's total is the
/// sum of the wallets' totals, and its participant count is the number of
/// wallets with at least one purchase.
pub proof fn balanced_since_opening(book: Book, ops: Seq<Operation>)
    requires
        opening(book),
    ensures
        within_caps(run(book, ops)),
        balanced(run(book, ops)),
{
    opening_is_balanced(book);
    run_keeps_balance(book, ops);
}

/// A purchase that would take a wallet past its cap is refused, with
/// `MaxBuyExceeded` unless the phase refuses it first, and changes neither
/// the wallet's record nor any other.
pub proof fn over_cap_is_refused(book: Book, wallet: int, amount: u64, now: i64)
    requires
        0 <= wallet < book.wallets.len(),
        book.wallets[wallet].total_purchased + amount
            > book.launch.config.anti_snipe.max_buy_per_wallet,
    ensures
        admission_error(book.launch, book.wallets[wallet], amount, now) == (if trading_guard(
            book.launch.phase,
        ) is Some {
            trading_guard(book.launch.phase)
        } else {
            Some(OneguardError::MaxBuyExceeded)
        }),
        step(book, Operation::Purchase { wallet, amount, now }) == book,
{
}

/// A launch that its creator finalized at `first` refuses a second
/// finalization, by its creator with `LaunchFinalized`, and still records
/// `first` as the time it was finalized.
pub proof fn second_finalize_is_refused(launch: LaunchState, first: i64, caller: Address)
    requires
        finalize_error(launch, launch.creator) is None,
    ensures
        finalize_error(launch_after_finalize(launch, first), launch.creator) == Some(
            OneguardError::LaunchFinalized,
        ),
        finalize_error(launch_after_finalize(launch, first), caller) is Some,
        launch_after_finalize(launch, first).finalized_at == Some(first),
{
}

/// A holding of exactly the limit's share of the supply is within the limit;
/// one unit more is not.
pub proof fn concentration_boundary(holding: int, supply: int, limit: int)
    requires
        supply > 0,
        holding * 100 == limit * supply,
    ensures
        within_concentration(holding, supply, limit),
        !within_concentration(holding + 1, supply, limit),
{
}

/// Where every other rule admits a purchase and one unit more, a purchase
/// that takes the wallet to exactly the concentration limit is admitted, and
/// one unit more is refused with `ConcentrationExceeded`.
pub proof fn purchase_at_concentration_limit(
    launch: LaunchState,
    participant: UserPurchaseState,
    amount: u64,
    now: i64,
)
    requires
        launch.phase.allows_trading(),
        participant.total_purchased + amount + 1 <= launch.config.anti_snipe.max_buy_per_wallet,
        !launch.config.anti_bundle.one_action_per_tx || participant.purchase_count == 0 || now
            - participant.last_purchase_at >= 1,
        launch.config.usd1_config.total_supply > 0,
        (participant.total_purchased + amount) * 100
            == launch.config.anti_bundle.max_wallet_concentration
            * launch.config.usd1_config.total_supply,
        launch.total_purchased + amount + 1 <= u64::MAX,
        participant.purchase_count < u32::MAX,
        launch.participant_count < u64::MAX,
    ensures
        admission_error(launch, participant, amount, now) is None,
        admission_error(launch, participant, (amount + 1) as u64, now) == Some(
            OneguardError::ConcentrationExceeded,
        ),
{
}

} // verus!

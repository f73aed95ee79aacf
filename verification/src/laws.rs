//! Laws of the contract, proved over the model transitions.
//!
//! Every executable operation is tied exactly to its transition function,
//! so each law proved here holds of the running contract as well.

use vstd::prelude::*;
use crate::model::{
    MAX_ACTIVITY_HISTORY, ModelState, record_of, record_tr, redeem_tr, register_tr, set_paused_tr,
    set_rate_tr, stake_tr, withdraw_tr,
};
use crate::policy::ActivityKind;
use crate::types::{KarmaError, TransferRequest};

verus! {

/// Registering the same user twice: whenever the first registration
/// succeeds, the second call fails with `AlreadyRegistered` and leaves the
/// whole state exactly as the first call left it.
pub proof fn lemma_register_guard_idempotent(s: ModelState, user: u64)
    requires
        register_tr(s, user).1 == Ok::<(), KarmaError>(()),
    ensures
        register_tr(register_tr(s, user).0, user) == (
            register_tr(s, user).0,
            Err::<(), KarmaError>(KarmaError::AlreadyRegistered),
        ),
{
}

/// One scored activity for each element of `events`, oldest first, applied
/// to the user's state.
pub open spec fn record_many(
    s: ModelState,
    user: u64,
    events: Seq<(ActivityKind, u64)>,
) -> ModelState
    decreases events.len(),
{
    if events.len() == 0 {
        s
    } else {
        record_many(record_tr(s, user, events[0].0, events[0].1).0, user, events.drop_first())
    }
}

/// Recording activities keeps the journal within its bound: after the
/// events the journal holds the old length plus one per event, saturating
/// at the bound, and the newest entry is the record of the last event.
/// Scoring changes neither the pause flag, registration, nor any stake, so
/// every event lands.
pub proof fn lemma_journal_bound(s: ModelState, user: u64, events: Seq<(ActivityKind, u64)>)
    requires
        s.wf(),
        s.registered(user),
        !s.paused,
    ensures
        record_many(s, user, events).wf(),
        record_many(s, user, events).registered(user),
        !record_many(s, user, events).paused,
        record_many(s, user, events).stake_of(user) == s.stake_of(user),
        record_many(s, user, events).journal_of(user).len() == if s.journal_of(user).len()
            + events.len() <= MAX_ACTIVITY_HISTORY {
            (s.journal_of(user).len() + events.len()) as int
        } else {
            MAX_ACTIVITY_HISTORY as int
        },
        events.len() > 0 ==> record_many(s, user, events).journal_of(user)[0] == record_of(
            s.stake_of(user),
            events.last().0,
            events.last().1,
        ),
    decreases events.len(),
{
    if events.len() > 0 {
        let s1 = record_tr(s, user, events[0].0, events[0].1).0;
        assert(s1.wf());
        lemma_journal_bound(s1, user, events.drop_first());
        if events.len() == 1 {
            assert(events.drop_first().len() == 0);
            assert(record_many(s1, user, events.drop_first()) == s1);
        } else {
            assert(events.drop_first().last() == events.last());
        }
    }
}

/// After twenty or more recorded activities the journal length is exactly
/// the bound, and the first entry is the record of the most recent
/// activity.
pub proof fn lemma_journal_saturates(s: ModelState, user: u64, events: Seq<(ActivityKind, u64)>)
    requires
        s.wf(),
        s.registered(user),
        !s.paused,
        events.len() >= MAX_ACTIVITY_HISTORY,
    ensures
        record_many(s, user, events).journal_of(user).len() == MAX_ACTIVITY_HISTORY,
        record_many(s, user, events).journal_of(user)[0] == record_of(
            s.stake_of(user),
            events.last().0,
            events.last().1,
        ),
{
    lemma_journal_bound(s, user, events);
}

/// One entry in a history of stake-ledger operations.
pub enum StakeEvent {
    Deposit(i128),
    Withdraw(i128),
}

/// Whether one stake-ledger operation succeeds in the given state: a
/// deposit of a positive amount always does, a withdrawal only of at most
/// the staked amount.
pub open spec fn stake_event_ok(s: ModelState, user: u64, ev: StakeEvent) -> bool {
    match ev {
        StakeEvent::Deposit(a) => a > 0,
        StakeEvent::Withdraw(a) => 0 <= a && a <= s.stake_of(user),
    }
}

/// The state after a history of stake-ledger operations, oldest first.
pub open spec fn apply_stake_events(
    s: ModelState,
    user: u64,
    token: u64,
    events: Seq<StakeEvent>,
) -> ModelState
    decreases events.len(),
{
    if events.len() == 0 {
        s
    } else {
        let s1 = match events[0] {
            StakeEvent::Deposit(a) => stake_tr(s, user, token, a, true).0,
            StakeEvent::Withdraw(a) => withdraw_tr(s, user, token, a, true).0,
        };
        apply_stake_events(s1, user, token, events.drop_first())
    }
}

/// Whether every operation of the history succeeds when applied in order.
pub open spec fn stake_events_ok(
    s: ModelState,
    user: u64,
    token: u64,
    events: Seq<StakeEvent>,
) -> bool
    decreases events.len(),
{
    events.len() == 0 || {
        let s1 = match events[0] {
            StakeEvent::Deposit(a) => stake_tr(s, user, token, a, true).0,
            StakeEvent::Withdraw(a) => withdraw_tr(s, user, token, a, true).0,
        };
        stake_event_ok(s, user, events[0]) && stake_events_ok(s1, user, token, events.drop_first())
    }
}

/// Sum of the deposited amounts minus the sum of the withdrawn amounts.
pub open spec fn net_of(events: Seq<StakeEvent>) -> int
    decreases events.len(),
{
    if events.len() == 0 {
        0
    } else {
        (match events[0] {
            StakeEvent::Deposit(a) => a as int,
            StakeEvent::Withdraw(a) => -(a as int),
        }) + net_of(events.drop_first())
    }
}

/// Conservation of the stake ledger: after any history of successful
/// deposits and withdrawals, the staked amount equals the starting amount
/// plus all deposited amounts minus all withdrawn amounts, and is never
/// negative. Starting from a fresh registration the starting amount is
/// zero, so the balance is exactly deposits minus withdrawals.
pub proof fn lemma_stake_conservation(
    s: ModelState,
    user: u64,
    token: u64,
    events: Seq<StakeEvent>,
)
    requires
        s.wf(),
        !s.paused,
        stake_events_ok(s, user, token, events),
    ensures
        apply_stake_events(s, user, token, events).stake_of(user) == s.stake_of(user) + net_of(
            events,
        ),
        apply_stake_events(s, user, token, events).stake_of(user) >= 0,
        apply_stake_events(s, user, token, events).wf(),
    decreases events.len(),
{
    if events.len() > 0 {
        let s1 = match events[0] {
            StakeEvent::Deposit(a) => stake_tr(s, user, token, a, true).0,
            StakeEvent::Withdraw(a) => withdraw_tr(s, user, token, a, true).0,
        };
        assert(s1.wf());
        assert(s1.stake_of(user) >= 0);
        lemma_stake_conservation(s1, user, token, events.drop_first());
    }
}

/// The pause gate: while the contract is paused, every state-mutating user
/// operation is refused with `ContractPaused` and leaves the state
/// unchanged, whatever its other arguments.
pub proof fn lemma_pause_gate(
    s: ModelState,
    user: u64,
    token: u64,
    amount: i128,
    karma_amount: i32,
    kind: ActivityKind,
    now: u64,
    auth: bool,
)
    requires
        s.paused,
    ensures
        register_tr(s, user) == (s, Err::<(), KarmaError>(KarmaError::ContractPaused)),
        stake_tr(s, user, token, amount, auth) == (
            s,
            Err::<TransferRequest, KarmaError>(KarmaError::ContractPaused),
        ),
        withdraw_tr(s, user, token, amount, auth) == (
            s,
            Err::<TransferRequest, KarmaError>(KarmaError::ContractPaused),
        ),
        record_tr(s, user, kind, now) == (
            s,
            Err::<i32, KarmaError>(KarmaError::ContractPaused),
        ),
        redeem_tr(s, user, karma_amount, auth) == (
            s,
            Err::<TransferRequest, KarmaError>(KarmaError::ContractPaused),
        ),
{
}

/// The admin gate: a caller that is not the owner, or whose authorization
/// the host did not verify, can neither pause the contract nor change the
/// rate; both calls fail with `Unauthorized` and change nothing.
pub proof fn lemma_admin_gate(s: ModelState, admin: u64, value: bool, rate: i128, auth: bool)
    requires
        admin != s.owner || !auth,
    ensures
        set_paused_tr(s, admin, value, auth) == (
            s,
            Err::<(), KarmaError>(KarmaError::Unauthorized),
        ),
        set_rate_tr(s, admin, rate, auth) == (s, Err::<(), KarmaError>(KarmaError::Unauthorized)),
{
}

} // verus!

//! The mathematical model of the contract.
//!
//! `ModelState` is the whole persisted state as a mathematical value, and
//! each operation has a transition function from state and inputs to new
//! state and result. The executable contract's `ensures` clauses tie every
//! call exactly to these transitions, so the laws proved about transitions
//! hold of the running code.

use vstd::prelude::*;
use crate::policy::{ActivityKind, base_value, multiplier_of, scaled_change};
use crate::types::{ActivityRecord, KarmaError, TransferDirection, TransferRequest, UserData};

verus! {

/// Default exchange rate: 10 karma points redeem for 1 asset unit.
pub const DEFAULT_KARMA_RATE: i128 = 10;

/// Bound on the length of a user's activity journal.
pub const MAX_ACTIVITY_HISTORY: usize = 20;

/// Registry entry of one user in the model: an unbounded signed karma
/// balance, and the registration flag carried by the stored entry.
#[verifier::ext_equal]
pub struct UserModel {
    pub karma: int,
    pub registered: bool,
}

/// The whole contract state as a mathematical value.
#[verifier::ext_equal]
pub struct ModelState {
    /// Whether `initialize` has run; owner and asset are write-once.
    pub initialized: bool,
    /// Identity that may pause the contract, change the rate and reset users.
    pub owner: u64,
    /// Identity of the external asset contract that karma redeems into.
    pub asset: u64,
    /// Karma units per asset unit; always positive.
    pub rate: int,
    /// While set, state-mutating operations are refused.
    pub paused: bool,
    /// Registry: an entry exists exactly for the users that registered.
    pub users: Map<u64, UserModel>,
    /// Stake ledger: staked collateral per user; absent means zero.
    pub stakes: Map<u64, int>,
    /// Bounded newest-first activity journal per user; absent means empty.
    pub journals: Map<u64, Seq<ActivityRecord>>,
}

impl ModelState {
    /// The state of a freshly deployed, not yet initialized contract.
    pub open spec fn init() -> ModelState {
        ModelState {
            initialized: false,
            owner: 0,
            asset: 0,
            rate: DEFAULT_KARMA_RATE as int,
            paused: false,
            users: Map::empty(),
            stakes: Map::empty(),
            journals: Map::empty(),
        }
    }

    /// A user is registered exactly when the registry holds an entry for it.
    pub open spec fn registered(self, user: u64) -> bool {
        self.users.contains_key(user)
    }

    /// Karma balance of a registered user.
    pub open spec fn karma_of(self, user: u64) -> int {
        self.users[user].karma
    }

    /// Staked amount of a user; zero when the user never staked.
    pub open spec fn stake_of(self, user: u64) -> int {
        if self.stakes.contains_key(user) {
            self.stakes[user]
        } else {
            0
        }
    }

    /// Activity journal of a user, newest first; empty when the user never
    /// recorded an activity.
    pub open spec fn journal_of(self, user: u64) -> Seq<ActivityRecord> {
        if self.journals.contains_key(user) {
            self.journals[user]
        } else {
            Seq::empty()
        }
    }

    /// Storage invariants: the rate is positive, no stake is negative, and
    /// no journal exceeds its bound.
    pub open spec fn wf(self) -> bool {
        &&& self.rate >= 1
        &&& forall|u: u64| self.stakes.contains_key(u) ==> #[trigger] self.stakes[u] >= 0
        &&& forall|u: u64|
            self.journals.contains_key(u) ==> (#[trigger] self.journals[u]).len()
                <= MAX_ACTIVITY_HISTORY
    }
}

/// A new record enters at the front of the journal; entries beyond the
/// bound are evicted from the back.
pub open spec fn journal_push(j: Seq<ActivityRecord>, r: ActivityRecord) -> Seq<ActivityRecord> {
    let grown = seq![r] + j;
    if grown.len() <= MAX_ACTIVITY_HISTORY {
        grown
    } else {
        grown.take(MAX_ACTIVITY_HISTORY as int)
    }
}

/// The journal record produced by scoring an activity of the given kind at
/// the given time, for a user with the given stake.
pub open spec fn record_of(stake: int, kind: ActivityKind, now: u64) -> ActivityRecord {
    ActivityRecord {
        activity_type: kind,
        karma_change: scaled_change(base_value(kind), multiplier_of(stake)) as i32,
        timestamp: now,
    }
}

/// `initialize(owner, asset)`: write-once setup of owner, asset reference,
/// default rate and the cleared pause flag.
pub open spec fn initialize_tr(s: ModelState, owner: u64, asset: u64) -> (ModelState, Result<
    (),
    KarmaError,
>) {
    if s.initialized {
        (s, Err(KarmaError::AlreadyInitialized))
    } else {
        (
            ModelState {
                initialized: true,
                owner,
                asset,
                rate: DEFAULT_KARMA_RATE as int,
                paused: false,
                ..s
            },
            Ok(()),
        )
    }
}

/// `register_user(user)`: creates a zero-karma registry entry and a zero
/// stake entry, atomically; refused while paused or when already present.
pub open spec fn register_tr(s: ModelState, user: u64) -> (ModelState, Result<(), KarmaError>) {
    if s.paused {
        (s, Err(KarmaError::ContractPaused))
    } else if s.registered(user) {
        (s, Err(KarmaError::AlreadyRegistered))
    } else {
        (
            ModelState {
                users: s.users.insert(user, UserModel { karma: 0, registered: true }),
                stakes: s.stakes.insert(user, 0),
                ..s
            },
            Ok(()),
        )
    }
}

/// `stake_tokens(user, token, amount)`: credits the stake ledger; the host
/// moves `amount` of `token` into custody before the credit commits.
pub open spec fn stake_tr(
    s: ModelState,
    user: u64,
    token: u64,
    amount: i128,
    auth: bool,
) -> (ModelState, Result<TransferRequest, KarmaError>) {
    if s.paused {
        (s, Err(KarmaError::ContractPaused))
    } else if !auth {
        (s, Err(KarmaError::Unauthorized))
    } else {
        (
            ModelState { stakes: s.stakes.insert(user, s.stake_of(user) + amount), ..s },
            Ok(
                TransferRequest {
                    token,
                    counterparty: user,
                    direction: TransferDirection::IntoCustody,
                    amount,
                },
            ),
        )
    }
}

/// `withdraw_stake(user, token, amount)`: debits the stake ledger first;
/// the host then returns `amount` of `token` to the user.
pub open spec fn withdraw_tr(
    s: ModelState,
    user: u64,
    token: u64,
    amount: i128,
    auth: bool,
) -> (ModelState, Result<TransferRequest, KarmaError>) {
    if s.paused {
        (s, Err(KarmaError::ContractPaused))
    } else if !auth {
        (s, Err(KarmaError::Unauthorized))
    } else if amount > s.stake_of(user) {
        (s, Err(KarmaError::InsufficientBalance))
    } else {
        (
            ModelState { stakes: s.stakes.insert(user, s.stake_of(user) - amount), ..s },
            Ok(
                TransferRequest {
                    token,
                    counterparty: user,
                    direction: TransferDirection::OutOfCustody,
                    amount,
                },
            ),
        )
    }
}

/// `record_*(user)`: scores one activity. The multiplier-adjusted change is
/// added to the user's karma, and a record enters the front of the journal,
/// evicting the oldest entry beyond the bound. Returns the change.
pub open spec fn record_tr(s: ModelState, user: u64, kind: ActivityKind, now: u64) -> (ModelState,
    Result<i32, KarmaError>,
) {
    if s.paused {
        (s, Err(KarmaError::ContractPaused))
    } else if !s.registered(user) {
        (s, Err(KarmaError::UserNotRegistered))
    } else {
        let change = scaled_change(base_value(kind), multiplier_of(s.stake_of(user)));
        (
            ModelState {
                users: s.users.insert(
                    user,
                    UserModel { karma: s.karma_of(user) + change, registered: s.users[user].registered },
                ),
                journals: s.journals.insert(
                    user,
                    journal_push(s.journal_of(user), record_of(s.stake_of(user), kind, now)),
                ),
                ..s
            },
            Ok(change as i32),
        )
    }
}

/// `redeem_karma(user, karma_amount)`: converts karma into asset units at
/// the current rate with truncating division, refusing a conversion that
/// truncates to zero; the karma debit commits before the host pays out.
pub open spec fn redeem_tr(s: ModelState, user: u64, karma_amount: i32, auth: bool) -> (ModelState,
    Result<TransferRequest, KarmaError>,
) {
    if s.paused {
        (s, Err(KarmaError::ContractPaused))
    } else if !auth {
        (s, Err(KarmaError::Unauthorized))
    } else if !s.registered(user) {
        (s, Err(KarmaError::UserNotRegistered))
    } else if s.karma_of(user) < karma_amount {
        (s, Err(KarmaError::InsufficientKarma))
    } else {
        let asset_amount = karma_amount as int / s.rate;
        if asset_amount == 0 {
            (s, Err(KarmaError::InvalidAmount))
        } else {
            (
                ModelState {
                    users: s.users.insert(
                        user,
                        UserModel {
                            karma: s.karma_of(user) - karma_amount,
                            registered: s.users[user].registered,
                        },
                    ),
                    ..s
                },
                Ok(
                    TransferRequest {
                        token: s.asset,
                        counterparty: user,
                        direction: TransferDirection::OutOfCustody,
                        amount: asset_amount as i128,
                    },
                ),
            )
        }
    }
}

/// `set_paused(admin, value)`: owner-gated pause switch.
pub open spec fn set_paused_tr(s: ModelState, admin: u64, value: bool, auth: bool) -> (ModelState,
    Result<(), KarmaError>,
) {
    if !auth || admin != s.owner {
        (s, Err(KarmaError::Unauthorized))
    } else {
        (ModelState { paused: value, ..s }, Ok(()))
    }
}

/// `set_karma_rate(admin, rate)`: owner-gated rate change; a non-positive
/// rate is refused.
pub open spec fn set_rate_tr(s: ModelState, admin: u64, rate: i128, auth: bool) -> (ModelState,
    Result<(), KarmaError>,
) {
    if !auth || admin != s.owner {
        (s, Err(KarmaError::Unauthorized))
    } else if rate <= 0 {
        (s, Err(KarmaError::InvalidAmount))
    } else {
        (ModelState { rate: rate as int, ..s }, Ok(()))
    }
}

/// `reset_user(admin, user)`: owner-gated; zeroes the karma of a registered
/// user (without registering an absent one) and zeroes the stake entry.
pub open spec fn reset_user_tr(s: ModelState, admin: u64, user: u64, auth: bool) -> (ModelState,
    Result<(), KarmaError>,
) {
    if !auth || admin != s.owner {
        (s, Err(KarmaError::Unauthorized))
    } else {
        let users = if s.registered(user) {
            s.users.insert(user, UserModel { karma: 0, registered: s.users[user].registered })
        } else {
            s.users
        };
        (ModelState { users, stakes: s.stakes.insert(user, 0), ..s }, Ok(()))
    }
}

/// Mapping a function over a map's values commutes with inserting a key.
pub proof fn lemma_map_values_insert<K, V, W>(m: Map<K, V>, f: spec_fn(V) -> W, k: K, v: V)
    ensures
        m.insert(k, v).map_values(f) == m.map_values(f).insert(k, f(v)),
{
    assert(m.insert(k, v).map_values(f) =~= m.map_values(f).insert(k, f(v)));
}

/// Removing a key and inserting it again is the same as inserting directly.
pub proof fn lemma_insert_after_remove<K, V>(m: Map<K, V>, k: K, v: V)
    ensures
        m.remove(k).insert(k, v) == m.insert(k, v),
{
    assert(m.remove(k).insert(k, v) =~= m.insert(k, v));
}

/// The view of a freshly written user entry.
pub open spec fn user_view(ud: UserData) -> UserModel {
    UserModel { karma: ud.karma_points as int, registered: ud.registered }
}

} // verus!

//! The executable contract state and its operations.
//!
//! `KarmaEngineContract` owns the registry, the stake ledger, the activity
//! journals and the configuration. Each operation's `ensures` ties its
//! effect exactly to the matching transition function of the model, so an
//! error always leaves the state unchanged and a success commits the whole
//! effect.
//!
//! The host around the contract supplies what the core does not decide:
//! caller authorization enters as a boolean verdict, the ledger time enters
//! as a plain integer, and operations that move the external asset return
//! the `TransferRequest` the host must perform.

use std::collections::HashMap;
use vstd::prelude::*;
use crate::model::{
    DEFAULT_KARMA_RATE, MAX_ACTIVITY_HISTORY, ModelState, initialize_tr, journal_push,
    lemma_insert_after_remove, lemma_map_values_insert, record_of, record_tr, redeem_tr,
    register_tr, reset_user_tr, set_paused_tr, set_rate_tr, stake_tr, user_view, withdraw_tr,
};
use crate::policy::{
    ActivityKind, base_value, base_value_of, multiplier_of, multiplier_for,
    lemma_multiplier_range, scaled_change, scaled_change_for,
};
use crate::types::{ActivityRecord, KarmaError, TransferDirection, TransferRequest, UserData};

verus! {

broadcast use vstd::std_specs::hash::group_hash_axioms;

/// The reputation contract: per-user karma driven by scored activities,
/// stake-based multipliers, bounded activity journals, and redemption of
/// karma into an external asset.
pub struct KarmaEngineContract {
    initialized: bool,
    owner: u64,
    asset: u64,
    rate: i128,
    paused: bool,
    users: HashMap<u64, UserData>,
    stakes: HashMap<u64, i128>,
    journals: HashMap<u64, Vec<ActivityRecord>>,
}

impl View for KarmaEngineContract {
    type V = ModelState;

    closed spec fn view(&self) -> ModelState {
        ModelState {
            initialized: self.initialized,
            owner: self.owner,
            asset: self.asset,
            rate: self.rate as int,
            paused: self.paused,
            users: self.users@.map_values(|ud: UserData| user_view(ud)),
            stakes: self.stakes@.map_values(|v: i128| v as int),
            journals: self.journals@.map_values(|v: Vec<ActivityRecord>| v@),
        }
    }
}

impl KarmaEngineContract {
    /// A freshly deployed contract: uninitialized, unpaused, at the default
    /// rate, with no users, stakes or journals.
    pub fn new() -> (c: KarmaEngineContract)
        ensures
            c@ == ModelState::init(),
            c@.wf(),
    {
        let c = KarmaEngineContract {
            initialized: false,
            owner: 0,
            asset: 0,
            rate: DEFAULT_KARMA_RATE,
            paused: false,
            users: HashMap::new(),
            stakes: HashMap::new(),
            journals: HashMap::new(),
        };
        proof {
            assert(c@ =~= ModelState::init());
        }
        c
    }

    /// Write-once setup of the owner and the asset reference; sets the
    /// default rate and clears the pause flag. Fails with
    /// `AlreadyInitialized` on any later call.
    pub fn initialize(&mut self, owner: u64, xlm_token: u64) -> (r: Result<(), KarmaError>)
        ensures
            (final(self)@, r) == initialize_tr(old(self)@, owner, xlm_token),
            old(self)@.wf() ==> final(self)@.wf(),
    {
        if self.initialized {
            return Err(KarmaError::AlreadyInitialized);
        }
        self.initialized = true;
        self.owner = owner;
        self.asset = xlm_token;
        self.rate = DEFAULT_KARMA_RATE;
        self.paused = false;
        proof {
            assert(self@ =~= initialize_tr(old(self)@, owner, xlm_token).0);
        }
        Ok(())
    }

    /// Registers a new user with zero karma and a zero stake entry, as one
    /// atomic operation. Fails with `AlreadyRegistered` for a user that
    /// already exists, and with `ContractPaused` while paused.
    pub fn register_user(&mut self, user: u64) -> (r: Result<(), KarmaError>)
        ensures
            (final(self)@, r) == register_tr(old(self)@, user),
            old(self)@.wf() ==> final(self)@.wf(),
    {
        if self.paused {
            return Err(KarmaError::ContractPaused);
        }
        if self.users.contains_key(&user) {
            return Err(KarmaError::AlreadyRegistered);
        }
        let ud = UserData { karma_points: 0, registered: true };
        self.users.insert(user, ud);
        self.stakes.insert(user, 0);
        proof {
            lemma_map_values_insert(
                old(self).users@,
                |d: UserData| user_view(d),
                user,
                ud,
            );
            lemma_map_values_insert(old(self).stakes@, |v: i128| v as int, user, 0i128);
            assert(self@ =~= register_tr(old(self)@, user).0);
        }
        Ok(())
    }

    /// Current signed karma balance of a registered user; penalties may
    /// have driven it negative. Fails with `UserNotRegistered` for an
    /// absent user. Read-only: available while paused.
    pub fn get_karma(&self, user: u64) -> (r: Result<i32, KarmaError>)
        ensures
            match r {
                Ok(k) => self@.registered(user) && k as int == self@.karma_of(user),
                Err(e) => e == KarmaError::UserNotRegistered && !self@.registered(user),
            },
    {
        match self.users.get(&user) {
            Some(ud) => Ok(ud.karma_points),
            None => Err(KarmaError::UserNotRegistered),
        }
    }

    /// Staked amount of a user; zero for a user that never staked, whether
    /// or not the user is registered. Read-only: available while paused.
    pub fn get_stake(&self, user: u64) -> (r: i128)
        ensures
            r as int == self@.stake_of(user),
    {
        match self.stakes.get(&user) {
            Some(v) => *v,
            None => 0,
        }
    }

    /// Credits `amount` to the user's stake. The returned request tells the
    /// host to move `amount` of `token` from the user into custody; the
    /// host performs that transfer before the credit commits, and aborts
    /// the whole operation if it fails.
    pub fn stake_tokens(&mut self, user: u64, token: u64, amount: i128, auth: bool) -> (r: Result<
        TransferRequest,
        KarmaError,
    >)
        requires
            amount > 0,
            old(self)@.paused || !auth || old(self)@.stake_of(user) + amount <= i128::MAX,
        ensures
            (final(self)@, r) == stake_tr(old(self)@, user, token, amount, auth),
            old(self)@.wf() ==> final(self)@.wf(),
    {
        if self.paused {
            return Err(KarmaError::ContractPaused);
        }
        if !auth {
            return Err(KarmaError::Unauthorized);
        }
        let current: i128 = match self.stakes.get(&user) {
            Some(v) => *v,
            None => 0,
        };
        let updated: i128 = current + amount;
        self.stakes.insert(user, updated);
        proof {
            lemma_map_values_insert(old(self).stakes@, |v: i128| v as int, user, updated);
            assert(self@ =~= stake_tr(old(self)@, user, token, amount, auth).0);
        }
        Ok(
            TransferRequest {
                token,
                counterparty: user,
                direction: TransferDirection::IntoCustody,
                amount,
            },
        )
    }

    /// Debits `amount` from the user's stake, failing with
    /// `InsufficientBalance` when more than the staked amount is asked
    /// back. The debit commits first; the returned request then tells the
    /// host to pay `amount` of `token` back to the user.
    pub fn withdraw_stake(&mut self, user: u64, token: u64, amount: i128, auth: bool) -> (r: Result<
        TransferRequest,
        KarmaError,
    >)
        requires
            amount >= 0,
        ensures
            (final(self)@, r) == withdraw_tr(old(self)@, user, token, amount, auth),
            old(self)@.wf() ==> final(self)@.wf(),
    {
        if self.paused {
            return Err(KarmaError::ContractPaused);
        }
        if !auth {
            return Err(KarmaError::Unauthorized);
        }
        let current: i128 = match self.stakes.get(&user) {
            Some(v) => *v,
            None => 0,
        };
        if amount > current {
            return Err(KarmaError::InsufficientBalance);
        }
        let updated: i128 = current - amount;
        self.stakes.insert(user, updated);
        proof {
            lemma_map_values_insert(old(self).stakes@, |v: i128| v as int, user, updated);
            assert(self@ =~= withdraw_tr(old(self)@, user, token, amount, auth).0);
        }
        Ok(
            TransferRequest {
                token,
                counterparty: user,
                direction: TransferDirection::OutOfCustody,
                amount,
            },
        )
    }

    /// The asset contract that karma redeems into.
    pub fn get_xlm_token(&self) -> (r: u64)
        requires
            self@.initialized,
        ensures
            r == self@.asset,
    {
        self.asset
    }

    /// Current karma-to-asset exchange rate.
    pub fn get_karma_rate(&self) -> (r: i128)
        ensures
            r as int == self@.rate,
    {
        self.rate
    }

    /// Whether the pause gate is set.
    pub fn is_paused(&self) -> (r: bool)
        ensures
            r == self@.paused,
    {
        self.paused
    }

    /// Owner-gated pause switch. Fails with `Unauthorized` when the caller
    /// is not the owner or did not authorize the call; the state is then
    /// unchanged.
    pub fn set_paused(&mut self, admin: u64, paused: bool, auth: bool) -> (r: Result<
        (),
        KarmaError,
    >)
        requires
            old(self)@.initialized,
        ensures
            (final(self)@, r) == set_paused_tr(old(self)@, admin, paused, auth),
            old(self)@.wf() ==> final(self)@.wf(),
    {
        if !auth {
            return Err(KarmaError::Unauthorized);
        }
        if admin != self.owner {
            return Err(KarmaError::Unauthorized);
        }
        self.paused = paused;
        proof {
            assert(self@ =~= set_paused_tr(old(self)@, admin, paused, auth).0);
        }
        Ok(())
    }

    /// Owner-gated change of the karma-to-asset rate. A non-positive rate
    /// fails with `InvalidAmount`.
    pub fn set_karma_rate(&mut self, admin: u64, rate: i128, auth: bool) -> (r: Result<
        (),
        KarmaError,
    >)
        requires
            old(self)@.initialized,
        ensures
            (final(self)@, r) == set_rate_tr(old(self)@, admin, rate, auth),
            old(self)@.wf() ==> final(self)@.wf(),
    {
        if !auth {
            return Err(KarmaError::Unauthorized);
        }
        if admin != self.owner {
            return Err(KarmaError::Unauthorized);
        }
        if rate <= 0 {
            return Err(KarmaError::InvalidAmount);
        }
        self.rate = rate;
        proof {
            assert(self@ =~= set_rate_tr(old(self)@, admin, rate, auth).0);
        }
        Ok(())
    }

    /// Owner-gated reset: zeroes the karma of a registered user (an absent
    /// user is not registered by this) and zeroes the stake entry.
    pub fn reset_user(&mut self, admin: u64, user: u64, auth: bool) -> (r: Result<(), KarmaError>)
        requires
            old(self)@.initialized,
        ensures
            (final(self)@, r) == reset_user_tr(old(self)@, admin, user, auth),
            old(self)@.wf() ==> final(self)@.wf(),
    {
        if !auth {
            return Err(KarmaError::Unauthorized);
        }
        if admin != self.owner {
            return Err(KarmaError::Unauthorized);
        }
        let found: Option<UserData> = match self.users.get(&user) {
            Some(ud) => Some(*ud),
            None => None,
        };
        match found {
            Some(ud) => {
                let nud = UserData { karma_points: 0, registered: ud.registered };
                self.users.insert(user, nud);
                proof {
                    lemma_map_values_insert(
                        old(self).users@,
                        |d: UserData| user_view(d),
                        user,
                        nud,
                    );
                }
            },
            None => {},
        }
        self.stakes.insert(user, 0);
        proof {
            lemma_map_values_insert(old(self).stakes@, |v: i128| v as int, user, 0i128);
            assert(self@ =~= reset_user_tr(old(self)@, admin, user, auth).0);
        }
        Ok(())
    }

    /// Multiplier the user currently earns from the staked amount, under
    /// the capped-scaling policy.
    pub fn get_multiplier(&self, user: u64) -> (r: u32)
        ensures
            r as int == multiplier_of(self@.stake_of(user)),
    {
        let stake = self.get_stake(user);
        multiplier_for(stake)
    }

    /// The user's activity journal, newest first; empty for a user that
    /// never recorded an activity. Read-only: available while paused.
    pub fn get_activities(&self, user: u64) -> (r: Vec<ActivityRecord>)
        ensures
            r@ == self@.journal_of(user),
    {
        match self.journals.get(&user) {
            Some(v) => {
                let mut out: Vec<ActivityRecord> = Vec::new();
                let mut i: usize = 0;
                while i < v.len()
                    invariant
                        i <= v.len(),
                        out@ == v@.take(i as int),
                    decreases v.len() - i,
                {
                    out.push(v[i]);
                    proof {
                        assert(out@ =~= v@.take(i + 1 as int));
                    }
                    i = i + 1;
                }
                proof {
                    assert(v@.take(v.len() as int) =~= v@);
                }
                out
            },
            None => Vec::new(),
        }
    }

    /// Scores one activity: adds the multiplier-adjusted change to the
    /// user's karma and pushes a record onto the front of the journal,
    /// evicting beyond the bound. Returns the karma change.
    fn record_activity(&mut self, user: u64, kind: ActivityKind, now: u64) -> (r: Result<
        i32,
        KarmaError,
    >)
        requires
            old(self)@.wf(),
            old(self)@.paused || !old(self)@.registered(user) || (i32::MIN <= old(self)@.karma_of(
                user,
            ) + scaled_change(base_value(kind), multiplier_of(old(self)@.stake_of(user)))
                <= i32::MAX),
        ensures
            (final(self)@, r) == record_tr(old(self)@, user, kind, now),
            final(self)@.wf(),
    {
        if self.paused {
            return Err(KarmaError::ContractPaused);
        }
        let ud: UserData = match self.users.get(&user) {
            Some(u) => *u,
            None => {
                return Err(KarmaError::UserNotRegistered);
            },
        };
        let stake: i128 = match self.stakes.get(&user) {
            Some(v) => *v,
            None => 0,
        };
        let mult: u32 = multiplier_for(stake);
        proof {
            lemma_multiplier_range(stake as int);
        }
        let base: i32 = base_value_of(kind);
        let change: i32 = scaled_change_for(base, mult);
        let new_karma: i32 = ud.karma_points + change;
        let nud = UserData { karma_points: new_karma, registered: ud.registered };
        self.users.insert(user, nud);
        let rec = ActivityRecord { activity_type: kind, karma_change: change, timestamp: now };
        let mut journal: Vec<ActivityRecord> = match self.journals.remove(&user) {
            Some(v) => v,
            None => Vec::new(),
        };
        proof {
            assert(journal@ == old(self)@.journal_of(user));
            assert(journal@.len() <= MAX_ACTIVITY_HISTORY);
        }
        push_record(&mut journal, rec);
        self.journals.insert(user, journal);
        proof {
            lemma_map_values_insert(old(self).users@, |d: UserData| user_view(d), user, nud);
            lemma_insert_after_remove(old(self).journals@, user, journal);
            assert(self.journals@ == old(self).journals@.insert(user, journal));
            lemma_map_values_insert(
                old(self).journals@,
                |v: Vec<ActivityRecord>| v@,
                user,
                journal,
            );
            assert(rec == record_of(old(self)@.stake_of(user), kind, now));
            assert(self@ =~= record_tr(old(self)@, user, kind, now).0);
        }
        Ok(change)
    }

    /// Records a post activity and returns the karma change.
    pub fn record_post(&mut self, user: u64, now: u64) -> (r: Result<i32, KarmaError>)
        requires
            old(self)@.wf(),
            old(self)@.paused || !old(self)@.registered(user) || (i32::MIN <= old(self)@.karma_of(
                user,
            ) + scaled_change(
                base_value(ActivityKind::Post),
                multiplier_of(old(self)@.stake_of(user)),
            ) <= i32::MAX),
        ensures
            (final(self)@, r) == record_tr(old(self)@, user, ActivityKind::Post, now),
            final(self)@.wf(),
    {
        self.record_activity(user, ActivityKind::Post, now)
    }

    /// Records a comment activity and returns the karma change.
    pub fn record_comment(&mut self, user: u64, now: u64) -> (r: Result<i32, KarmaError>)
        requires
            old(self)@.wf(),
            old(self)@.paused || !old(self)@.registered(user) || (i32::MIN <= old(self)@.karma_of(
                user,
            ) + scaled_change(
                base_value(ActivityKind::Comment),
                multiplier_of(old(self)@.stake_of(user)),
            ) <= i32::MAX),
        ensures
            (final(self)@, r) == record_tr(old(self)@, user, ActivityKind::Comment, now),
            final(self)@.wf(),
    {
        self.record_activity(user, ActivityKind::Comment, now)
    }

    /// Records a like activity and returns the karma change.
    pub fn record_like(&mut self, user: u64, now: u64) -> (r: Result<i32, KarmaError>)
        requires
            old(self)@.wf(),
            old(self)@.paused || !old(self)@.registered(user) || (i32::MIN <= old(self)@.karma_of(
                user,
            ) + scaled_change(
                base_value(ActivityKind::Like),
                multiplier_of(old(self)@.stake_of(user)),
            ) <= i32::MAX),
        ensures
            (final(self)@, r) == record_tr(old(self)@, user, ActivityKind::Like, now),
            final(self)@.wf(),
    {
        self.record_activity(user, ActivityKind::Like, now)
    }

    /// Records a repost activity and returns the karma change.
    pub fn record_repost(&mut self, user: u64, now: u64) -> (r: Result<i32, KarmaError>)
        requires
            old(self)@.wf(),
            old(self)@.paused || !old(self)@.registered(user) || (i32::MIN <= old(self)@.karma_of(
                user,
            ) + scaled_change(
                base_value(ActivityKind::Repost),
                multiplier_of(old(self)@.stake_of(user)),
            ) <= i32::MAX),
        ensures
            (final(self)@, r) == record_tr(old(self)@, user, ActivityKind::Repost, now),
            final(self)@.wf(),
    {
        self.record_activity(user, ActivityKind::Repost, now)
    }

    /// Records a report against the user and returns the (negative) karma
    /// change.
    pub fn record_report(&mut self, user: u64, now: u64) -> (r: Result<i32, KarmaError>)
        requires
            old(self)@.wf(),
            old(self)@.paused || !old(self)@.registered(user) || (i32::MIN <= old(self)@.karma_of(
                user,
            ) + scaled_change(
                base_value(ActivityKind::Report),
                multiplier_of(old(self)@.stake_of(user)),
            ) <= i32::MAX),
        ensures
            (final(self)@, r) == record_tr(old(self)@, user, ActivityKind::Report, now),
            final(self)@.wf(),
    {
        self.record_activity(user, ActivityKind::Report, now)
    }

    /// Converts `karma_amount` of the user's karma into asset units at the
    /// current rate with truncating division. A conversion that truncates
    /// to zero fails with `InvalidAmount`; asking for more karma than the
    /// balance fails with `InsufficientKarma`. The karma debit commits
    /// first; the returned request then tells the host to pay the asset
    /// units out of custody to the user.
    pub fn redeem_karma(&mut self, user: u64, karma_amount: i32, auth: bool) -> (r: Result<
        TransferRequest,
        KarmaError,
    >)
        requires
            old(self)@.initialized,
            old(self)@.wf(),
            karma_amount >= 0,
        ensures
            (final(self)@, r) == redeem_tr(old(self)@, user, karma_amount, auth),
            final(self)@.wf(),
    {
        if self.paused {
            return Err(KarmaError::ContractPaused);
        }
        if !auth {
            return Err(KarmaError::Unauthorized);
        }
        let ud: UserData = match self.users.get(&user) {
            Some(u) => *u,
            None => {
                return Err(KarmaError::UserNotRegistered);
            },
        };
        if ud.karma_points < karma_amount {
            return Err(KarmaError::InsufficientKarma);
        }
        let asset_amount: i128 = ((karma_amount as u128) / (self.rate as u128)) as i128;
        if asset_amount == 0 {
            return Err(KarmaError::InvalidAmount);
        }
        let nud = UserData { karma_points: ud.karma_points - karma_amount, registered: ud.registered };
        self.users.insert(user, nud);
        proof {
            lemma_map_values_insert(old(self).users@, |d: UserData| user_view(d), user, nud);
            assert(self@ =~= redeem_tr(old(self)@, user, karma_amount, auth).0);
        }
        Ok(
            TransferRequest {
                token: self.asset,
                counterparty: user,
                direction: TransferDirection::OutOfCustody,
                amount: asset_amount,
            },
        )
    }
}

/// Pushes a record onto the front of a journal and evicts entries from the
/// back until the journal is back within its bound.
fn push_record(journal: &mut Vec<ActivityRecord>, rec: ActivityRecord)
    requires
        old(journal)@.len() < usize::MAX,
    ensures
        final(journal)@ == journal_push(old(journal)@, rec),
{
    journal.insert(0, rec);
    let ghost grown = seq![rec] + old(journal)@;
    proof {
        assert(journal@ =~= grown);
        assert(journal@ =~= grown.take(journal@.len() as int));
    }
    while journal.len() > MAX_ACTIVITY_HISTORY
        invariant
            journal@.len() <= grown.len(),
            journal@.len() >= if grown.len() <= MAX_ACTIVITY_HISTORY {
                grown.len() as int
            } else {
                MAX_ACTIVITY_HISTORY as int
            },
            journal@ == grown.take(journal@.len() as int),
        decreases journal@.len(),
    {
        journal.pop();
        proof {
            assert(journal@ =~= grown.take(journal@.len() as int));
        }
    }
    proof {
        assert(journal@ =~= journal_push(old(journal)@, rec));
    }
}

} // verus!

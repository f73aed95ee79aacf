use karma_engine::engine::KarmaEngineContract;
use karma_engine::policy::ActivityKind;
use karma_engine::types::{KarmaError, TransferDirection};

#[test]
fn test_basic_functionality() {
    // This test will just compile the contract to make sure there are no syntax errors
    assert!(true);
}

#[test]
fn test_user_registration() {
    let mut client = KarmaEngineContract::new();

    let owner: u64 = 1;
    let xlm_token: u64 = 2;

    // Initialize contract
    let result = client.initialize(owner, xlm_token);
    assert!(result.is_ok());

    // Register a user
    let user: u64 = 3;
    let result = client.register_user(user);
    assert!(result.is_ok());

    // Check that user has 0 karma points initially
    let karma = client.get_karma(user);
    assert!(karma.is_ok());
    assert_eq!(karma.unwrap(), 0);

    // Check that user has 0 stake initially
    let stake = client.get_stake(user);
    assert_eq!(stake, 0);

    // Check XLM token address
    let token = client.get_xlm_token();
    assert_eq!(token, xlm_token);
}

#[test]
fn test_posting_activity_and_karma_update() {
    let mut client = KarmaEngineContract::new();

    let owner: u64 = 1;
    let xlm_token: u64 = 2;
    let _ = client.initialize(owner, xlm_token);

    let user: u64 = 3;
    let _ = client.register_user(user);

    // Record a post activity (+5 karma)
    let result = client.record_post(user, 10);
    assert!(result.is_ok());
    assert_eq!(result.unwrap(), 5);

    // Check user's karma
    let karma = client.get_karma(user);
    assert!(karma.is_ok());
    assert_eq!(karma.unwrap(), 5);

    // Record a comment activity (+3 karma)
    let result = client.record_comment(user, 11);
    assert!(result.is_ok());
    assert_eq!(result.unwrap(), 3);

    // Check user's karma
    let karma = client.get_karma(user);
    assert!(karma.is_ok());
    assert_eq!(karma.unwrap(), 8);
}

#[test]
fn test_redeeming_karma_for_xlm() {
    let mut client = KarmaEngineContract::new();

    let owner: u64 = 1;
    let xlm_token: u64 = 2;
    let _ = client.initialize(owner, xlm_token);

    let user: u64 = 3;
    let _ = client.register_user(user);

    // Record some activities to earn karma
    let _ = client.record_post(user, 10); // +5 karma
    let _ = client.record_comment(user, 11); // +3 karma
    let _ = client.record_like(user, 12); // +1 karma

    // Check user's karma (should be 9)
    let karma = client.get_karma(user);
    assert!(karma.is_ok());
    assert_eq!(karma.unwrap(), 9);

    // Try to redeem karma for XLM (should fail: with the default rate of
    // 10 karma = 1 XLM, 9 karma truncates to 0 XLM)
    let result = client.redeem_karma(user, 9, true);
    assert!(result.is_err());

    // Record one more activity to get 10 karma
    let _ = client.record_like(user, 13); // +1 karma
    let karma = client.get_karma(user);
    assert!(karma.is_ok());
    assert_eq!(karma.unwrap(), 10);

    // Now 10 karma redeems for 1 XLM
    let result = client.redeem_karma(user, 10, true);
    assert!(result.is_ok());
    let transfer = result.unwrap();
    assert_eq!(transfer.token, xlm_token);
    assert_eq!(transfer.counterparty, user);
    assert_eq!(transfer.direction, TransferDirection::OutOfCustody);
    assert_eq!(transfer.amount, 1);
    assert_eq!(client.get_karma(user).unwrap(), 0);
}

#[test]
fn test_pausing_and_unpausing_contract() {
    let mut client = KarmaEngineContract::new();

    let owner: u64 = 1;
    let xlm_token: u64 = 2;
    let _ = client.initialize(owner, xlm_token);

    // Check that contract is not paused initially
    assert_eq!(client.is_paused(), false);

    // Pause the contract
    let result = client.set_paused(owner, true, true);
    assert!(result.is_ok());

    // Check that contract is paused
    assert_eq!(client.is_paused(), true);

    // Unpause the contract
    let result = client.set_paused(owner, false, true);
    assert!(result.is_ok());

    // Check that contract is not paused
    assert_eq!(client.is_paused(), false);
}

#[test]
fn test_get_activities_newest_first() {
    let mut client = KarmaEngineContract::new();

    let owner: u64 = 1;
    let xlm_token: u64 = 2;
    let _ = client.initialize(owner, xlm_token);

    let user: u64 = 3;
    let _ = client.register_user(user);

    // Record some activities
    let _ = client.record_post(user, 10);
    let _ = client.record_comment(user, 11);
    let _ = client.record_like(user, 12);

    // Get user's activities
    let activities = client.get_activities(user);
    assert_eq!(activities.len(), 3);

    // Activities are returned newest first: the like last recorded comes
    // first, the post recorded first comes last
    assert_eq!(activities[0].activity_type, ActivityKind::Like);
    assert_eq!(activities[0].timestamp, 12);
    assert_eq!(activities[2].activity_type, ActivityKind::Post);
    assert_eq!(activities[2].timestamp, 10);
}

#[test]
fn registration_guard_is_idempotent() {
    let mut client = KarmaEngineContract::new();
    let _ = client.initialize(1, 2);

    let user: u64 = 9;
    assert!(client.register_user(user).is_ok());
    let _ = client.record_post(user, 5);
    let _ = client.stake_tokens(user, 4, 70, true);

    // A second registration always fails and changes nothing
    let second = client.register_user(user);
    assert_eq!(second, Err(KarmaError::AlreadyRegistered));
    assert_eq!(client.get_karma(user).unwrap(), 5);
    assert_eq!(client.get_stake(user), 70);

    let third = client.register_user(user);
    assert_eq!(third, Err(KarmaError::AlreadyRegistered));
}

#[test]
fn journal_is_bounded_at_twenty_newest_first() {
    let mut client = KarmaEngineContract::new();
    let _ = client.initialize(1, 2);
    let user: u64 = 3;
    let _ = client.register_user(user);

    // Record 25 likes with increasing timestamps
    let mut t: u64 = 100;
    while t < 125 {
        let r = client.record_like(user, t);
        assert!(r.is_ok());
        t += 1;
    }

    let activities = client.get_activities(user);
    assert_eq!(activities.len(), 20);
    // Newest first: the most recent activity leads ...
    assert_eq!(activities[0].timestamp, 124);
    // ... and the oldest five were evicted from the back
    assert_eq!(activities[19].timestamp, 105);
}

#[test]
fn multiplier_tiers_are_monotonic_and_capped() {
    let mut client = KarmaEngineContract::new();
    let _ = client.initialize(1, 2);
    let user: u64 = 3;
    let _ = client.register_user(user);

    let token: u64 = 4;
    assert_eq!(client.get_multiplier(user), 10);

    let _ = client.stake_tokens(user, token, 99, true);
    assert_eq!(client.get_multiplier(user), 10);

    let _ = client.stake_tokens(user, token, 1, true); // stake 100
    assert_eq!(client.get_multiplier(user), 15);

    let _ = client.stake_tokens(user, token, 399, true); // stake 499
    assert_eq!(client.get_multiplier(user), 15);

    let _ = client.stake_tokens(user, token, 1, true); // stake 500
    assert_eq!(client.get_multiplier(user), 25);

    let _ = client.stake_tokens(user, token, 500, true); // stake 1000
    assert_eq!(client.get_multiplier(user), 30);

    let _ = client.stake_tokens(user, token, 2000, true); // stake 3000
    assert_eq!(client.get_multiplier(user), 50);

    let _ = client.stake_tokens(user, token, 1_000_000, true); // far beyond
    assert_eq!(client.get_multiplier(user), 50);
}

#[test]
fn multiplier_scales_activity_scoring_with_truncation() {
    let mut client = KarmaEngineContract::new();
    let _ = client.initialize(1, 2);
    let user: u64 = 3;
    let _ = client.register_user(user);

    // At 1.5x, a post is worth floor(5 * 15 / 10) = 7
    let _ = client.stake_tokens(user, 4, 100, true);
    assert_eq!(client.record_post(user, 10).unwrap(), 7);
    // ... and a report costs -5 * 15 / 10 truncated toward zero: -7
    assert_eq!(client.record_report(user, 11).unwrap(), -7);
    assert_eq!(client.get_karma(user).unwrap(), 0);

    // At 2.5x (stake 500), a post is worth 125 / 10 = 12
    let _ = client.stake_tokens(user, 4, 400, true);
    assert_eq!(client.record_post(user, 12).unwrap(), 12);
}

#[test]
fn karma_can_go_negative_from_reports() {
    let mut client = KarmaEngineContract::new();
    let _ = client.initialize(1, 2);
    let user: u64 = 3;
    let _ = client.register_user(user);

    assert_eq!(client.record_report(user, 10).unwrap(), -5);
    assert_eq!(client.get_karma(user).unwrap(), -5);
}

#[test]
fn stake_ledger_conserves_deposits_minus_withdrawals() {
    let mut client = KarmaEngineContract::new();
    let _ = client.initialize(1, 2);
    let user: u64 = 3;
    let token: u64 = 4;
    let _ = client.register_user(user);

    let r = client.stake_tokens(user, token, 300, true);
    let transfer = r.unwrap();
    assert_eq!(transfer.direction, TransferDirection::IntoCustody);
    assert_eq!(transfer.amount, 300);
    assert_eq!(transfer.counterparty, user);

    let _ = client.stake_tokens(user, token, 200, true);
    assert_eq!(client.get_stake(user), 500);

    let r = client.withdraw_stake(user, token, 150, true);
    let transfer = r.unwrap();
    assert_eq!(transfer.direction, TransferDirection::OutOfCustody);
    assert_eq!(transfer.amount, 150);
    assert_eq!(client.get_stake(user), 350);

    // Withdrawing more than the balance fails and changes nothing
    let r = client.withdraw_stake(user, token, 351, true);
    assert_eq!(r, Err(KarmaError::InsufficientBalance));
    assert_eq!(client.get_stake(user), 350);

    let r = client.withdraw_stake(user, token, 350, true);
    assert!(r.is_ok());
    assert_eq!(client.get_stake(user), 0);
}

#[test]
fn staking_works_without_registration() {
    let mut client = KarmaEngineContract::new();
    let _ = client.initialize(1, 2);
    let user: u64 = 3;

    // The stake ledger does not require registration
    assert_eq!(client.get_stake(user), 0);
    assert!(client.stake_tokens(user, 4, 50, true).is_ok());
    assert_eq!(client.get_stake(user), 50);
    assert_eq!(client.get_karma(user), Err(KarmaError::UserNotRegistered));
}

#[test]
fn redemption_rounding_boundary() {
    let mut client = KarmaEngineContract::new();
    let _ = client.initialize(1, 2);
    let user: u64 = 3;
    let _ = client.register_user(user);

    // Earn exactly 9 karma
    let _ = client.record_post(user, 10);
    let _ = client.record_comment(user, 11);
    let _ = client.record_like(user, 12);
    assert_eq!(client.get_karma(user).unwrap(), 9);

    // 9 karma at rate 10 truncates to zero asset units: too small to redeem
    let r = client.redeem_karma(user, 9, true);
    assert_eq!(r, Err(KarmaError::InvalidAmount));
    assert_eq!(client.get_karma(user).unwrap(), 9);

    // One more like brings the balance to 10, which redeems for exactly 1
    let _ = client.record_like(user, 13);
    assert_eq!(client.get_karma(user).unwrap(), 10);
    let r = client.redeem_karma(user, 10, true);
    assert!(r.is_ok());
    assert_eq!(r.unwrap().amount, 1);
    assert_eq!(client.get_karma(user).unwrap(), 0);
}

#[test]
fn redeem_error_cases() {
    let mut client = KarmaEngineContract::new();
    let _ = client.initialize(1, 2);
    let user: u64 = 3;

    // Unregistered user
    assert_eq!(client.redeem_karma(user, 10, true), Err(KarmaError::UserNotRegistered));

    let _ = client.register_user(user);
    let _ = client.record_post(user, 10); // karma 5

    // More karma than the balance
    assert_eq!(client.redeem_karma(user, 100, true), Err(KarmaError::InsufficientKarma));

    // Missing caller authorization
    assert_eq!(client.redeem_karma(user, 5, false), Err(KarmaError::Unauthorized));
    assert_eq!(client.get_karma(user).unwrap(), 5);
}

#[test]
fn pause_gate_blocks_mutating_operations() {
    let mut client = KarmaEngineContract::new();
    let owner: u64 = 1;
    let _ = client.initialize(owner, 2);
    let user: u64 = 3;
    let _ = client.register_user(user);
    let _ = client.record_post(user, 10); // karma 5

    assert!(client.set_paused(owner, true, true).is_ok());

    assert_eq!(client.stake_tokens(user, 4, 10, true), Err(KarmaError::ContractPaused));
    assert_eq!(client.withdraw_stake(user, 4, 10, true), Err(KarmaError::ContractPaused));
    assert_eq!(client.record_post(user, 11), Err(KarmaError::ContractPaused));
    assert_eq!(client.record_comment(user, 11), Err(KarmaError::ContractPaused));
    assert_eq!(client.record_like(user, 11), Err(KarmaError::ContractPaused));
    assert_eq!(client.record_repost(user, 11), Err(KarmaError::ContractPaused));
    assert_eq!(client.record_report(user, 11), Err(KarmaError::ContractPaused));
    assert_eq!(client.redeem_karma(user, 5, true), Err(KarmaError::ContractPaused));
    assert_eq!(client.register_user(42), Err(KarmaError::ContractPaused));

    // Read-only operations still succeed while paused
    assert_eq!(client.get_karma(user).unwrap(), 5);
    assert_eq!(client.get_stake(user), 0);
    assert_eq!(client.get_activities(user).len(), 1);
}

#[test]
fn non_owner_admin_calls_are_unauthorized() {
    let mut client = KarmaEngineContract::new();
    let owner: u64 = 1;
    let _ = client.initialize(owner, 2);
    let outsider: u64 = 8;

    assert_eq!(client.set_paused(outsider, true, true), Err(KarmaError::Unauthorized));
    assert_eq!(client.is_paused(), false);

    assert_eq!(client.set_karma_rate(outsider, 5, true), Err(KarmaError::Unauthorized));
    assert_eq!(client.get_karma_rate(), 10);

    assert_eq!(client.reset_user(outsider, 3, true), Err(KarmaError::Unauthorized));

    // The owner without host-verified authorization is refused as well
    assert_eq!(client.set_paused(owner, true, false), Err(KarmaError::Unauthorized));
    assert_eq!(client.is_paused(), false);
}

#[test]
fn rate_administration() {
    let mut client = KarmaEngineContract::new();
    let owner: u64 = 1;
    let _ = client.initialize(owner, 2);

    assert_eq!(client.get_karma_rate(), 10);
    assert_eq!(client.set_karma_rate(owner, 0, true), Err(KarmaError::InvalidAmount));
    assert_eq!(client.set_karma_rate(owner, -3, true), Err(KarmaError::InvalidAmount));
    assert_eq!(client.get_karma_rate(), 10);

    assert!(client.set_karma_rate(owner, 5, true).is_ok());
    assert_eq!(client.get_karma_rate(), 5);

    // At rate 5, 9 karma redeems for 1 asset unit
    let user: u64 = 3;
    let _ = client.register_user(user);
    let _ = client.record_post(user, 10);
    let _ = client.record_comment(user, 11);
    let _ = client.record_like(user, 12); // karma 9
    let r = client.redeem_karma(user, 9, true);
    assert_eq!(r.unwrap().amount, 1);
    assert_eq!(client.get_karma(user).unwrap(), 0);
}

#[test]
fn initialize_is_write_once() {
    let mut client = KarmaEngineContract::new();
    assert!(client.initialize(1, 2).is_ok());
    assert_eq!(client.initialize(7, 8), Err(KarmaError::AlreadyInitialized));
    assert_eq!(client.get_xlm_token(), 2);
}

#[test]
fn reset_user_zeroes_karma_and_stake() {
    let mut client = KarmaEngineContract::new();
    let owner: u64 = 1;
    let _ = client.initialize(owner, 2);
    let user: u64 = 3;
    let _ = client.register_user(user);
    let _ = client.record_post(user, 10);
    let _ = client.stake_tokens(user, 4, 250, true);

    assert!(client.reset_user(owner, user, true).is_ok());
    assert_eq!(client.get_karma(user).unwrap(), 0);
    assert_eq!(client.get_stake(user), 0);

    // Resetting an unregistered user zeroes the stake entry but does not
    // register the user
    let stranger: u64 = 9;
    let _ = client.stake_tokens(stranger, 4, 50, true);
    assert!(client.reset_user(owner, stranger, true).is_ok());
    assert_eq!(client.get_stake(stranger), 0);
    assert_eq!(client.get_karma(stranger), Err(KarmaError::UserNotRegistered));
}

#[test]
fn record_errors_for_unregistered_users() {
    let mut client = KarmaEngineContract::new();
    let _ = client.initialize(1, 2);

    assert_eq!(client.record_post(3, 10), Err(KarmaError::UserNotRegistered));
    assert_eq!(client.record_repost(3, 10), Err(KarmaError::UserNotRegistered));
    assert_eq!(client.get_activities(3).len(), 0);
}

#[test]
fn record_returns_each_base_value_at_regular_tier() {
    let mut client = KarmaEngineContract::new();
    let _ = client.initialize(1, 2);
    let user: u64 = 3;
    let _ = client.register_user(user);

    assert_eq!(client.record_post(user, 10).unwrap(), 5);
    assert_eq!(client.record_comment(user, 11).unwrap(), 3);
    assert_eq!(client.record_like(user, 12).unwrap(), 1);
    assert_eq!(client.record_repost(user, 13).unwrap(), 2);
    assert_eq!(client.record_report(user, 14).unwrap(), -5);
    assert_eq!(client.get_karma(user).unwrap(), 6);

    let activities = client.get_activities(user);
    assert_eq!(activities.len(), 5);
    assert_eq!(activities[0].activity_type, ActivityKind::Report);
    assert_eq!(activities[0].karma_change, -5);
    assert_eq!(activities[4].activity_type, ActivityKind::Post);
    assert_eq!(activities[4].karma_change, 5);
}

//! Multiplier policy and activity scoring.
//!
//! The multiplier is a fixed-point factor with one implied decimal digit
//! (`10` means 1.0x). The policy implemented here is the capped-scaling
//! variant: below 100 staked units the multiplier is 1.0x, from 100 it is
//! 1.5x, and from 500 it grows with `stake / 100` but is capped at 5.0x so
//! that very large stakes cannot dominate scoring.

use vstd::prelude::*;

verus! {

/// The kinds of social activity that are scored.
#[derive(Clone, Copy, Debug, PartialEq, Eq, Structural)]
pub enum ActivityKind {
    Post,
    Comment,
    Like,
    Repost,
    Report,
}

/// Base karma awarded for a post.
pub const POST_KARMA: i32 = 5;

/// Base karma awarded for a comment.
pub const COMMENT_KARMA: i32 = 3;

/// Base karma awarded for a like.
pub const LIKE_KARMA: i32 = 1;

/// Base karma awarded for a repost.
pub const REPOST_KARMA: i32 = 2;

/// Base karma charged for being reported (a penalty).
pub const REPORT_PENALTY: i32 = -5;

/// Multiplier for users below the trusted tier: 1.0x.
pub const REGULAR_MULTIPLIER: u32 = 10;

/// Multiplier for the trusted tier: 1.5x.
pub const TRUSTED_MULTIPLIER: u32 = 15;

/// Base multiplier for the influencer tier: 2.0x.
pub const INFLUENCER_MULTIPLIER: u32 = 20;

/// Stake needed for the trusted tier.
pub const TRUSTED_TIER_THRESHOLD: i128 = 100;

/// Stake needed for the influencer tier.
pub const INFLUENCER_TIER_THRESHOLD: i128 = 500;

/// Cap on the stake-scaled bonus added on top of the influencer multiplier.
pub const SCALED_BONUS_CAP: u32 = 30;

/// Cap on the whole multiplier: 5.0x.
pub const MULTIPLIER_CAP: u32 = 50;

/// Base karma value of an activity kind.
pub open spec fn base_value(kind: ActivityKind) -> int {
    match kind {
        ActivityKind::Post => POST_KARMA as int,
        ActivityKind::Comment => COMMENT_KARMA as int,
        ActivityKind::Like => LIKE_KARMA as int,
        ActivityKind::Repost => REPOST_KARMA as int,
        ActivityKind::Report => REPORT_PENALTY as int,
    }
}

/// The capped-scaling multiplier policy as a mathematical function of the
/// staked amount.
pub open spec fn multiplier_of(stake: int) -> int {
    if stake >= INFLUENCER_TIER_THRESHOLD {
        let bonus = if stake / 100 <= SCALED_BONUS_CAP {
            stake / 100
        } else {
            SCALED_BONUS_CAP as int
        };
        if INFLUENCER_MULTIPLIER + bonus <= MULTIPLIER_CAP {
            INFLUENCER_MULTIPLIER + bonus
        } else {
            MULTIPLIER_CAP as int
        }
    } else if stake >= TRUSTED_TIER_THRESHOLD {
        TRUSTED_MULTIPLIER as int
    } else {
        REGULAR_MULTIPLIER as int
    }
}

/// The multiplier-adjusted karma change of an activity: the product of the
/// base value and the fixed-point multiplier, divided by 10 with truncation
/// toward zero (so the Report penalty truncates toward zero as well).
pub open spec fn scaled_change(base: int, mult: int) -> int {
    let prod = base * mult;
    if prod >= 0 {
        prod / 10
    } else {
        -((-prod) / 10)
    }
}

/// Base karma value of an activity kind.
pub fn base_value_of(kind: ActivityKind) -> (r: i32)
    ensures
        r as int == base_value(kind),
{
    match kind {
        ActivityKind::Post => POST_KARMA,
        ActivityKind::Comment => COMMENT_KARMA,
        ActivityKind::Like => LIKE_KARMA,
        ActivityKind::Repost => REPOST_KARMA,
        ActivityKind::Report => REPORT_PENALTY,
    }
}

/// Multiplier earned by a given staked amount, under the capped-scaling
/// policy.
pub fn multiplier_for(stake: i128) -> (r: u32)
    ensures
        r as int == multiplier_of(stake as int),
{
    if stake >= INFLUENCER_TIER_THRESHOLD {
        let scaled: u128 = (stake as u128) / 100;
        let bonus: u32 = if scaled >= SCALED_BONUS_CAP as u128 {
            SCALED_BONUS_CAP
        } else {
            scaled as u32
        };
        let m: u32 = INFLUENCER_MULTIPLIER + bonus;
        if m <= MULTIPLIER_CAP {
            m
        } else {
            MULTIPLIER_CAP
        }
    } else if stake >= TRUSTED_TIER_THRESHOLD {
        TRUSTED_MULTIPLIER
    } else {
        REGULAR_MULTIPLIER
    }
}

/// Multiplier-adjusted karma change of an activity with the given base value
/// under the given multiplier.
pub fn scaled_change_for(base: i32, mult: u32) -> (r: i32)
    requires
        -5 <= base <= 5,
        10 <= mult <= 50,
    ensures
        r as int == scaled_change(base as int, mult as int),
        -25 <= r <= 25,
{
    if base >= 0 {
        let b: u32 = base as u32;
        assert(b == base as int);
        assert(b * mult <= 250 && b * mult == (base as int) * (mult as int)) by (nonlinear_arith)
            requires
                b <= 5,
                mult <= 50,
                b == base as int,
        ;
        let prod: u32 = b * mult;
        (prod / 10) as i32
    } else {
        let neg: i32 = -base;
        let n: u32 = neg as u32;
        assert(n == -(base as int));
        assert(n * mult <= 250 && n * mult == -((base as int) * (mult as int))) by (nonlinear_arith)
            requires
                1 <= n <= 5,
                10 <= mult <= 50,
                n == -(base as int),
        ;
        let prod: u32 = n * mult;
        let q: i32 = (prod / 10) as i32;
        -q
    }
}

/// The multiplier policy is non-decreasing in the staked amount.
pub proof fn lemma_multiplier_non_decreasing(a: int, b: int)
    requires
        a <= b,
    ensures
        multiplier_of(a) <= multiplier_of(b),
{
    if a >= INFLUENCER_TIER_THRESHOLD {
        vstd::arithmetic::div_mod::lemma_div_is_ordered(a, b, 100);
    }
}

/// The multiplier always lies between 1.0x and the 5.0x cap.
pub proof fn lemma_multiplier_range(a: int)
    ensures
        10 <= multiplier_of(a) <= 50,
{
    if a >= INFLUENCER_TIER_THRESHOLD {
        vstd::arithmetic::div_mod::lemma_div_is_ordered(500, a, 100);
    }
}

} // verus!

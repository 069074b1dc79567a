//! The global rules of the escrow engine, stated and proved once.

use vstd::prelude::*;

use vstd::arithmetic::div_mod::lemma_div_by_multiple;
use vstd::arithmetic::div_mod::lemma_div_denominator;
use vstd::arithmetic::div_mod::lemma_div_is_ordered_by_denominator;

use crate::engine::platform_fee_of;
use crate::engine::reclaim_accepts;
use crate::engine::reclaim_gate_error;
use crate::engine::select_winner_accepts;
use crate::engine::select_winner_gate_error;
use crate::engine::winner_payout_of;
use crate::errors::ErrorCode;
use crate::state::Bounty;
use crate::state::Identity;
use crate::state::bounty_is_active;
use crate::state::bounty_well_formed;

verus! {

/// Value conservation at payout: the platform fee and the winner payout
/// always sum to the prize exactly, and the fee at the defined rate of 100
/// basis points is the prize divided by 100, rounded down — so the fee
/// never exceeds the prize.
pub proof fn lemma_payout_conservation(prize_amount: u64)
    ensures
        platform_fee_of(prize_amount) + winner_payout_of(prize_amount) == prize_amount,
        platform_fee_of(prize_amount) == prize_amount as int / 100,
        0 <= platform_fee_of(prize_amount) <= prize_amount,
        0 <= winner_payout_of(prize_amount) <= prize_amount,
{
    let p = prize_amount as int;
    lemma_div_denominator(p * 100, 100, 100);
    lemma_div_by_multiple(p, 100);
    assert(platform_fee_of(prize_amount) == p / 100);
    lemma_div_is_ordered_by_denominator(p, 1, 100);
    assert(p / 1 == p);
}

/// Mutual exclusion of the terminal states: a well-formed bounty is never
/// both completed and expired. The operation contracts in [`crate::engine`]
/// preserve well-formedness, so no reachable bounty ever carries both flags.
pub proof fn lemma_terminal_states_mutually_exclusive(b: Bounty)
    requires
        bounty_well_formed(b),
    ensures
        !(b.completed && b.expired),
{
}

/// No double spend through selection: once a bounty is completed, every
/// further `select_winner` call on it — by any caller, at any time — is
/// gated out with [`ErrorCode::BountyAlreadyCompleted`], and its contract
/// then guarantees that nothing changes.
pub proof fn lemma_select_winner_no_double_spend(b: Bounty, caller: Identity, now: i64)
    requires
        b.completed,
    ensures
        !select_winner_accepts(b, caller, now),
        select_winner_gate_error(b, caller, now) == ErrorCode::BountyAlreadyCompleted,
{
}

/// No double reclaim: once a bounty is expired, every further
/// `reclaim_expired_bounty` call on it — at any time — is gated out with
/// [`ErrorCode::BountyAlreadyExpired`], and its contract then guarantees
/// that nothing changes.
pub proof fn lemma_reclaim_no_double_reclaim(b: Bounty, now: i64)
    requires
        b.expired,
        !b.completed,
    ensures
        !reclaim_accepts(b, now),
        reclaim_gate_error(b, now) == ErrorCode::BountyAlreadyExpired,
{
}

/// The time gate: seen at one instant, an active bounty opens exactly one
/// of the two terminal transitions. Its owner can select a winner exactly
/// while the clock is strictly before the expiry instant, escrow can be
/// reclaimed exactly from that instant on, and no bounty — whatever its
/// state — ever admits both transitions at once.
pub proof fn lemma_time_gate_exclusive(b: Bounty, caller: Identity, now: i64)
    ensures
        !(select_winner_accepts(b, caller, now) && reclaim_accepts(b, now)),
        bounty_is_active(b) && caller == b.company ==> (select_winner_accepts(b, caller, now)
            <==> now < b.expiry_timestamp),
        bounty_is_active(b) ==> (reclaim_accepts(b, now) <==> now >= b.expiry_timestamp),
{
}

} // verus!

//! The four escrow state transitions and the fee rule.
//!
//! Every operation is all-or-nothing: each contract says exactly which
//! inputs succeed, which error a rejected input earns (checked in the
//! order the errors are listed), and that a rejected call leaves every
//! record and balance untouched.

use vstd::prelude::*;

use crate::errors::ErrorCode;
use crate::state::Bounty;
use crate::state::Identity;
use crate::state::Treasury;
use crate::state::HunterProfile;
use crate::state::Payout;
use crate::state::bounty_well_formed;
use crate::state::BOUNTY_CREATION_FEE;
use crate::state::ESCROW_EXPIRY_SECONDS;
use crate::state::FEE_DENOMINATOR_BPS;
use crate::state::MAX_DESCRIPTION_HASH_LEN;
use crate::state::PLATFORM_FEE_BPS;

verus! {

/// The platform's cut of a prize: [`PLATFORM_FEE_BPS`] basis points,
/// computed in truncating integer arithmetic.
pub open spec fn platform_fee_of(prize_amount: u64) -> int {
    prize_amount * (PLATFORM_FEE_BPS as int) / (FEE_DENOMINATOR_BPS as int)
}

/// What is left of a prize for the winner once the platform fee is taken.
pub open spec fn winner_payout_of(prize_amount: u64) -> int {
    prize_amount - platform_fee_of(prize_amount)
}

/// Split a prize into the platform fee and the winner payout. Fails with
/// [`ErrorCode::MathOverflow`] exactly when the basis-point product does
/// not fit in 64 bits; on success the two parts sum to the prize.
pub fn compute_payout(prize_amount: u64) -> (r: Result<Payout, ErrorCode>)
    ensures
        r is Ok <==> prize_amount * (PLATFORM_FEE_BPS as int) <= u64::MAX,
        r matches Ok(p) ==> {
            &&& p.platform_fee == platform_fee_of(prize_amount)
            &&& p.platform_fee == prize_amount as int / 100
            &&& p.winner_payout == winner_payout_of(prize_amount)
            &&& p.platform_fee + p.winner_payout == prize_amount
        },
        r matches Err(e) ==> e == ErrorCode::MathOverflow,
{
    let gross = match prize_amount.checked_mul(PLATFORM_FEE_BPS as u64) {
        Some(g) => g,
        None => {
            return Err(ErrorCode::MathOverflow);
        },
    };
    let platform_fee = gross / FEE_DENOMINATOR_BPS;
    proof {
        crate::laws::lemma_payout_conservation(prize_amount);
    }
    let winner_payout = prize_amount - platform_fee;
    Ok(Payout { platform_fee, winner_payout })
}

/// One-time bootstrap of the platform treasury: all accumulators start at
/// zero and the given identity is recorded as the deployer.
pub fn initialize_treasury(authority: Identity) -> (t: Treasury)
    ensures
        t.authority == authority,
        t.total_fees_collected == 0,
        t.total_bounties_created == 0,
        t.total_bounties_completed == 0,
        t.total_volume == 0,
        t.total_expired_funds_reclaimed == 0,
{
    Treasury {
        authority,
        total_fees_collected: 0,
        total_bounties_created: 0,
        total_bounties_completed: 0,
        total_volume: 0,
        total_expired_funds_reclaimed: 0,
    }
}

/// The inputs on which creation does real work: the content reference is
/// within bounds and there is a prize to escrow.
pub open spec fn create_accepts(description_hash: Seq<u8>, prize_amount: u64) -> bool {
    &&& description_hash.len() <= MAX_DESCRIPTION_HASH_LEN
    &&& prize_amount > 0
}

/// Whether recording a creation would overflow an accumulator of the
/// treasury record or the treasury's own balance.
pub open spec fn create_overflows(t: Treasury, treasury_balance: u64, prize_amount: u64) -> bool {
    ||| t.total_fees_collected + BOUNTY_CREATION_FEE > u64::MAX
    ||| t.total_bounties_created + 1 > u32::MAX
    ||| t.total_volume + prize_amount > u64::MAX
    ||| treasury_balance + BOUNTY_CREATION_FEE > u64::MAX
}

/// The error a rejected creation reports, in the order the checks run:
/// validation first, arithmetic last.
pub open spec fn create_first_error(description_hash: Seq<u8>, prize_amount: u64) -> ErrorCode {
    if description_hash.len() > MAX_DESCRIPTION_HASH_LEN {
        ErrorCode::DescriptionHashTooLong
    } else if prize_amount == 0 {
        ErrorCode::InvalidPrizeAmount
    } else {
        ErrorCode::MathOverflow
    }
}

/// Create a new bounty: the company pays the flat creation fee to the
/// treasury and escrows the full prize in the new record.
///
/// Succeeds exactly when the terms validate and no treasury accumulator
/// overflows; then the company's balance drops by fee plus prize, the
/// treasury balance gains the fee, the new record holds the prize in
/// escrow and expires the fixed window after `now`, and the treasury's
/// fee, volume and creation counters grow by exactly the amounts moved.
/// A rejected call changes nothing. The store the environment keeps
/// bounties in is responsible for rejecting a duplicate of an existing
/// (company, description hash) key.
pub fn create_bounty(
    company: Identity,
    description_hash: Vec<u8>,
    prize_amount: u64,
    deadline_timestamp: Option<i64>,
    now: i64,
    company_balance: &mut u64,
    treasury: &mut Treasury,
    treasury_balance: &mut u64,
) -> (r: Result<Bounty, ErrorCode>)
    requires
        now + ESCROW_EXPIRY_SECONDS <= i64::MAX,
        *old(company_balance) >= BOUNTY_CREATION_FEE + prize_amount,
    ensures
        r is Ok <==> (create_accepts(description_hash@, prize_amount) && !create_overflows(
            *old(treasury),
            *old(treasury_balance),
            prize_amount,
        )),
        r matches Err(e) ==> {
            &&& e == create_first_error(description_hash@, prize_amount)
            &&& *final(company_balance) == *old(company_balance)
            &&& *final(treasury) == *old(treasury)
            &&& *final(treasury_balance) == *old(treasury_balance)
        },
        r matches Ok(b) ==> {
            &&& b.company == company
            &&& b.description_hash@ == description_hash@
            &&& b.prize_amount == prize_amount
            &&& b.deadline_timestamp == deadline_timestamp
            &&& b.winner is None
            &&& !b.completed
            &&& !b.expired
            &&& b.created_at == now
            &&& b.expiry_timestamp == now + ESCROW_EXPIRY_SECONDS
            &&& b.completed_at is None
            &&& b.submission_hash is None
            &&& b.escrow_balance == prize_amount
            &&& bounty_well_formed(b)
            &&& *final(company_balance) == *old(company_balance) - BOUNTY_CREATION_FEE
                - prize_amount
            &&& *final(treasury_balance) == *old(treasury_balance) + BOUNTY_CREATION_FEE
            &&& final(treasury).total_fees_collected == old(treasury).total_fees_collected
                + BOUNTY_CREATION_FEE
            &&& final(treasury).total_bounties_created == old(treasury).total_bounties_created
                + 1
            &&& final(treasury).total_volume == old(treasury).total_volume + prize_amount
            &&& final(treasury).total_bounties_completed == old(
                treasury,
            ).total_bounties_completed
            &&& final(treasury).total_expired_funds_reclaimed == old(
                treasury,
            ).total_expired_funds_reclaimed
            &&& final(treasury).authority == old(treasury).authority
            &&& *old(company_balance) + *old(treasury_balance) == *final(company_balance)
                + *final(treasury_balance) + b.escrow_balance
        },
{
    if description_hash.len() > MAX_DESCRIPTION_HASH_LEN {
        return Err(ErrorCode::DescriptionHashTooLong);
    }
    if prize_amount == 0 {
        return Err(ErrorCode::InvalidPrizeAmount);
    }
    // Settle every checked addition before committing anything, so a
    // rejected call has touched no record.
    let new_fees = match treasury.total_fees_collected.checked_add(BOUNTY_CREATION_FEE) {
        Some(v) => v,
        None => {
            return Err(ErrorCode::MathOverflow);
        },
    };
    let new_created = match treasury.total_bounties_created.checked_add(1) {
        Some(v) => v,
        None => {
            return Err(ErrorCode::MathOverflow);
        },
    };
    let new_volume = match treasury.total_volume.checked_add(prize_amount) {
        Some(v) => v,
        None => {
            return Err(ErrorCode::MathOverflow);
        },
    };
    let new_treasury_balance = match treasury_balance.checked_add(BOUNTY_CREATION_FEE) {
        Some(v) => v,
        None => {
            return Err(ErrorCode::MathOverflow);
        },
    };
    *company_balance = *company_balance - BOUNTY_CREATION_FEE - prize_amount;
    *treasury_balance = new_treasury_balance;
    treasury.total_fees_collected = new_fees;
    treasury.total_bounties_created = new_created;
    treasury.total_volume = new_volume;
    Ok(
        Bounty {
            company,
            description_hash,
            prize_amount,
            deadline_timestamp,
            winner: None,
            completed: false,
            created_at: now,
            completed_at: None,
            submission_hash: None,
            expiry_timestamp: now + ESCROW_EXPIRY_SECONDS,
            expired: false,
            escrow_balance: prize_amount,
        },
    )
}

/// The conditions under which a winner can be selected: the bounty is
/// still active, the caller owns it, and the expiry instant has not been
/// reached yet.
pub open spec fn select_winner_accepts(b: Bounty, caller: Identity, now: i64) -> bool {
    &&& !b.completed
    &&& !b.expired
    &&& caller == b.company
    &&& now < b.expiry_timestamp
}

/// The error a gated-out selection reports, in the order the checks run.
/// A bounty already marked expired and one whose window has lapsed on the
/// clock both earn [`ErrorCode::BountyExpired`].
pub open spec fn select_winner_gate_error(b: Bounty, caller: Identity, now: i64) -> ErrorCode {
    if b.completed {
        ErrorCode::BountyAlreadyCompleted
    } else if b.expired {
        ErrorCode::BountyExpired
    } else if caller != b.company {
        ErrorCode::UnauthorizedCompany
    } else {
        ErrorCode::BountyExpired
    }
}

/// Whether paying out a winner would overflow: the basis-point product of
/// the prize, a credited balance, or a counter.
pub open spec fn select_winner_overflows(
    b: Bounty,
    profile: HunterProfile,
    t: Treasury,
    treasury_balance: u64,
    winner_balance: u64,
) -> bool {
    ||| b.prize_amount * (PLATFORM_FEE_BPS as int) > u64::MAX
    ||| treasury_balance + platform_fee_of(b.prize_amount) > u64::MAX
    ||| winner_balance + winner_payout_of(b.prize_amount) > u64::MAX
    ||| profile.bounties_completed + 1 > u32::MAX
    ||| t.total_bounties_completed + 1 > u32::MAX
    ||| t.total_fees_collected + platform_fee_of(b.prize_amount) > u64::MAX
}

/// Select the winner of an active bounty and pay the escrow out: the
/// platform fee goes to the treasury balance, the rest to the winner's
/// balance, and the winner's reputation counter grows by one.
///
/// Only the bounty's own company may select, and only strictly before
/// the expiry instant. Succeeds exactly when those conditions hold and no
/// addition overflows; then the escrow empties, the
/// bounty is completed with the winner, time and submission recorded, and
/// the returned breakdown says exactly what each party received. A
/// rejected call changes nothing.
pub fn select_winner(
    caller: Identity,
    bounty: &mut Bounty,
    winner: Identity,
    submission_hash: Vec<u8>,
    now: i64,
    winner_profile: &mut HunterProfile,
    treasury: &mut Treasury,
    treasury_balance: &mut u64,
    winner_balance: &mut u64,
) -> (r: Result<Payout, ErrorCode>)
    requires
        bounty_well_formed(*old(bounty)),
        submission_hash@.len() <= MAX_DESCRIPTION_HASH_LEN,
    ensures
        r is Ok <==> (select_winner_accepts(*old(bounty), caller, now)
            && !select_winner_overflows(
            *old(bounty),
            *old(winner_profile),
            *old(treasury),
            *old(treasury_balance),
            *old(winner_balance),
        )),
        r matches Err(e) ==> {
            &&& e == if select_winner_accepts(*old(bounty), caller, now) {
                ErrorCode::MathOverflow
            } else {
                select_winner_gate_error(*old(bounty), caller, now)
            }
            &&& *final(bounty) == *old(bounty)
            &&& *final(winner_profile) == *old(winner_profile)
            &&& *final(treasury) == *old(treasury)
            &&& *final(treasury_balance) == *old(treasury_balance)
            &&& *final(winner_balance) == *old(winner_balance)
        },
        r matches Ok(p) ==> {
            &&& p.platform_fee == platform_fee_of(old(bounty).prize_amount)
            &&& p.winner_payout == winner_payout_of(old(bounty).prize_amount)
            &&& p.platform_fee + p.winner_payout == old(bounty).prize_amount
            &&& final(bounty).completed
            &&& !final(bounty).expired
            &&& final(bounty).winner == Some(winner)
            &&& final(bounty).completed_at == Some(now)
            &&& final(bounty).submission_hash matches Some(s) && s@ == submission_hash@
            &&& final(bounty).escrow_balance == 0
            &&& final(bounty).company == old(bounty).company
            &&& final(bounty).description_hash@ == old(bounty).description_hash@
            &&& final(bounty).prize_amount == old(bounty).prize_amount
            &&& final(bounty).deadline_timestamp == old(bounty).deadline_timestamp
            &&& final(bounty).created_at == old(bounty).created_at
            &&& final(bounty).expiry_timestamp == old(bounty).expiry_timestamp
            &&& bounty_well_formed(*final(bounty))
            &&& *final(treasury_balance) == *old(treasury_balance) + p.platform_fee
            &&& *final(winner_balance) == *old(winner_balance) + p.winner_payout
            &&& final(winner_profile).bounties_completed == old(
                winner_profile,
            ).bounties_completed + 1
            &&& final(winner_profile).hunter == old(winner_profile).hunter
            &&& final(winner_profile).created_at == old(winner_profile).created_at
            &&& final(treasury).total_bounties_completed == old(
                treasury,
            ).total_bounties_completed + 1
            &&& final(treasury).total_fees_collected == old(treasury).total_fees_collected
                + p.platform_fee
            &&& final(treasury).total_bounties_created == old(treasury).total_bounties_created
            &&& final(treasury).total_volume == old(treasury).total_volume
            &&& final(treasury).total_expired_funds_reclaimed == old(
                treasury,
            ).total_expired_funds_reclaimed
            &&& final(treasury).authority == old(treasury).authority
            &&& old(bounty).escrow_balance + *old(treasury_balance) + *old(winner_balance)
                == final(bounty).escrow_balance + *final(treasury_balance)
                + *final(winner_balance)
        },
{
    if bounty.completed {
        return Err(ErrorCode::BountyAlreadyCompleted);
    }
    if bounty.expired {
        return Err(ErrorCode::BountyExpired);
    }
    if caller != bounty.company {
        return Err(ErrorCode::UnauthorizedCompany);
    }
    if now >= bounty.expiry_timestamp {
        return Err(ErrorCode::BountyExpired);
    }
    let payout = match compute_payout(bounty.prize_amount) {
        Ok(p) => p,
        Err(e) => {
            return Err(e);
        },
    };
    // Settle every checked addition before committing anything.
    let new_treasury_balance = match treasury_balance.checked_add(payout.platform_fee) {
        Some(v) => v,
        None => {
            return Err(ErrorCode::MathOverflow);
        },
    };
    let new_winner_balance = match winner_balance.checked_add(payout.winner_payout) {
        Some(v) => v,
        None => {
            return Err(ErrorCode::MathOverflow);
        },
    };
    let new_profile_wins = match winner_profile.bounties_completed.checked_add(1) {
        Some(v) => v,
        None => {
            return Err(ErrorCode::MathOverflow);
        },
    };
    let new_total_completed = match treasury.total_bounties_completed.checked_add(1) {
        Some(v) => v,
        None => {
            return Err(ErrorCode::MathOverflow);
        },
    };
    let new_fees = match treasury.total_fees_collected.checked_add(payout.platform_fee) {
        Some(v) => v,
        None => {
            return Err(ErrorCode::MathOverflow);
        },
    };
    // An active well-formed bounty escrows exactly its prize, and the two
    // payout parts sum to the prize, so the escrow empties exactly.
    bounty.escrow_balance = bounty.escrow_balance - payout.platform_fee - payout.winner_payout;
    bounty.winner = Some(winner);
    bounty.completed = true;
    bounty.completed_at = Some(now);
    bounty.submission_hash = Some(submission_hash);
    winner_profile.bounties_completed = new_profile_wins;
    treasury.total_bounties_completed = new_total_completed;
    treasury.total_fees_collected = new_fees;
    *treasury_balance = new_treasury_balance;
    *winner_balance = new_winner_balance;
    Ok(payout)
}

/// The conditions under which escrow can be reclaimed: the bounty is still
/// active and the expiry instant has been reached.
pub open spec fn reclaim_accepts(b: Bounty, now: i64) -> bool {
    &&& !b.completed
    &&& !b.expired
    &&& now >= b.expiry_timestamp
}

/// The error a gated-out reclaim reports, in the order the checks run.
pub open spec fn reclaim_gate_error(b: Bounty, now: i64) -> ErrorCode {
    if b.completed {
        ErrorCode::BountyAlreadyCompleted
    } else if b.expired {
        ErrorCode::BountyAlreadyExpired
    } else {
        ErrorCode::BountyNotExpired
    }
}

/// How much of an escrow balance a reclaim moves to the treasury: all of
/// it above the reserved minimum the account store needs to keep the
/// record alive, and nothing when the balance is already at or below it.
pub open spec fn reclaimable_of(escrow_balance: u64, reserved_minimum: u64) -> int {
    if escrow_balance >= reserved_minimum {
        escrow_balance - reserved_minimum
    } else {
        0
    }
}

/// Whether recording a reclaim would overflow the treasury balance or its
/// reclaimed-funds accumulator.
pub open spec fn reclaim_overflows(
    b: Bounty,
    reserved_minimum: u64,
    t: Treasury,
    treasury_balance: u64,
) -> bool {
    ||| treasury_balance + reclaimable_of(b.escrow_balance, reserved_minimum) > u64::MAX
    ||| t.total_expired_funds_reclaimed + reclaimable_of(b.escrow_balance, reserved_minimum)
        > u64::MAX
}

/// Revert the escrow of a lapsed bounty to the treasury and mark the
/// bounty expired. Any party may call this: the funds can only move to the
/// treasury, never to the caller.
///
/// Succeeds exactly when the bounty is still active, the expiry instant
/// has been reached, and no addition overflows; then the escrow above the
/// store's reserved minimum moves to the treasury balance, the reclaimed
/// amount is returned and added to the treasury's reclaimed-funds
/// accumulator, and the bounty records when it lapsed. A rejected call
/// changes nothing.
pub fn reclaim_expired_bounty(
    bounty: &mut Bounty,
    now: i64,
    reserved_minimum: u64,
    treasury: &mut Treasury,
    treasury_balance: &mut u64,
) -> (r: Result<u64, ErrorCode>)
    requires
        bounty_well_formed(*old(bounty)),
    ensures
        r is Ok <==> (reclaim_accepts(*old(bounty), now) && !reclaim_overflows(
            *old(bounty),
            reserved_minimum,
            *old(treasury),
            *old(treasury_balance),
        )),
        r matches Err(e) ==> {
            &&& e == if reclaim_accepts(*old(bounty), now) {
                ErrorCode::MathOverflow
            } else {
                reclaim_gate_error(*old(bounty), now)
            }
            &&& *final(bounty) == *old(bounty)
            &&& *final(treasury) == *old(treasury)
            &&& *final(treasury_balance) == *old(treasury_balance)
        },
        r matches Ok(amount) ==> {
            &&& amount == reclaimable_of(old(bounty).escrow_balance, reserved_minimum)
            &&& final(bounty).expired
            &&& !final(bounty).completed
            &&& final(bounty).completed_at == Some(now)
            &&& final(bounty).escrow_balance == old(bounty).escrow_balance - amount
            &&& final(bounty).winner is None
            &&& final(bounty).submission_hash is None
            &&& final(bounty).company == old(bounty).company
            &&& final(bounty).description_hash@ == old(bounty).description_hash@
            &&& final(bounty).prize_amount == old(bounty).prize_amount
            &&& final(bounty).deadline_timestamp == old(bounty).deadline_timestamp
            &&& final(bounty).created_at == old(bounty).created_at
            &&& final(bounty).expiry_timestamp == old(bounty).expiry_timestamp
            &&& bounty_well_formed(*final(bounty))
            &&& *final(treasury_balance) == *old(treasury_balance) + amount
            &&& final(treasury).total_expired_funds_reclaimed == old(
                treasury,
            ).total_expired_funds_reclaimed + amount
            &&& final(treasury).total_fees_collected == old(treasury).total_fees_collected
            &&& final(treasury).total_bounties_created == old(treasury).total_bounties_created
            &&& final(treasury).total_bounties_completed == old(
                treasury,
            ).total_bounties_completed
            &&& final(treasury).total_volume == old(treasury).total_volume
            &&& final(treasury).authority == old(treasury).authority
            &&& old(bounty).escrow_balance + *old(treasury_balance)
                == final(bounty).escrow_balance + *final(treasury_balance)
        },
{
    if bounty.completed {
        return Err(ErrorCode::BountyAlreadyCompleted);
    }
    if bounty.expired {
        return Err(ErrorCode::BountyAlreadyExpired);
    }
    if now < bounty.expiry_timestamp {
        return Err(ErrorCode::BountyNotExpired);
    }
    let reclaimable = if bounty.escrow_balance >= reserved_minimum {
        bounty.escrow_balance - reserved_minimum
    } else {
        0
    };
    // Settle every checked addition before committing anything.
    let new_treasury_balance = match treasury_balance.checked_add(reclaimable) {
        Some(v) => v,
        None => {
            return Err(ErrorCode::MathOverflow);
        },
    };
    let new_reclaimed = match treasury.total_expired_funds_reclaimed.checked_add(reclaimable) {
        Some(v) => v,
        None => {
            return Err(ErrorCode::MathOverflow);
        },
    };
    bounty.escrow_balance = bounty.escrow_balance - reclaimable;
    bounty.expired = true;
    bounty.completed_at = Some(now);
    treasury.total_expired_funds_reclaimed = new_reclaimed;
    *treasury_balance = new_treasury_balance;
    Ok(reclaimable)
}

/// Create a hunter's reputation record with no wins yet. The store the
/// environment keeps profiles in is responsible for rejecting a duplicate:
/// this constructor itself always succeeds.
pub fn create_hunter_profile(hunter: Identity, now: i64) -> (p: HunterProfile)
    ensures
        p.hunter == hunter,
        p.bounties_completed == 0,
        p.created_at == now,
{
    HunterProfile { hunter, bounties_completed: 0, created_at: now }
}

} // verus!

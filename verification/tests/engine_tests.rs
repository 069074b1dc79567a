use openbounty::engine::compute_payout;
use openbounty::engine::create_bounty;
use openbounty::engine::create_hunter_profile;
use openbounty::engine::initialize_treasury;
use openbounty::engine::reclaim_expired_bounty;
use openbounty::engine::select_winner;
use openbounty::errors::ErrorCode;
use openbounty::state::Bounty;
use openbounty::state::Treasury;
use openbounty::state::BOUNTY_CREATION_FEE;
use openbounty::state::ESCROW_EXPIRY_SECONDS;

const COMPANY: u64 = 11;
const HUNTER: u64 = 22;
const CREATED_AT: i64 = 1_700_000_000;

fn fresh_bounty(prize_amount: u64) -> (Bounty, Treasury, u64, u64) {
    let mut treasury = initialize_treasury(1);
    let mut company_balance = u64::MAX;
    let mut treasury_balance = 0u64;
    let bounty = create_bounty(
        COMPANY,
        b"task".to_vec(),
        prize_amount,
        None,
        CREATED_AT,
        &mut company_balance,
        &mut treasury,
        &mut treasury_balance,
    )
    .expect("creation with valid terms succeeds");
    (bounty, treasury, company_balance, treasury_balance)
}

#[test]
fn initialize_treasury_zeroes_all_accumulators() {
    let t = initialize_treasury(42);
    assert_eq!(t.authority, 42);
    assert_eq!(t.total_fees_collected, 0);
    assert_eq!(t.total_bounties_created, 0);
    assert_eq!(t.total_bounties_completed, 0);
    assert_eq!(t.total_volume, 0);
    assert_eq!(t.total_expired_funds_reclaimed, 0);
}

#[test]
fn create_hunter_profile_starts_at_zero_wins() {
    let p = create_hunter_profile(HUNTER, 77);
    assert_eq!(p.hunter, HUNTER);
    assert_eq!(p.bounties_completed, 0);
    assert_eq!(p.created_at, 77);
}

#[test]
fn create_bounty_moves_fee_and_prize() {
    let mut treasury = initialize_treasury(1);
    let mut company_balance = 2_000_000_000u64;
    let mut treasury_balance = 500u64;
    let bounty = create_bounty(
        COMPANY,
        b"task".to_vec(),
        1_000_000_000,
        Some(CREATED_AT + 1000),
        CREATED_AT,
        &mut company_balance,
        &mut treasury,
        &mut treasury_balance,
    )
    .expect("creation with valid terms succeeds");
    assert_eq!(
        company_balance,
        2_000_000_000 - BOUNTY_CREATION_FEE - 1_000_000_000
    );
    assert_eq!(treasury_balance, 500 + BOUNTY_CREATION_FEE);
    assert_eq!(treasury.total_fees_collected, BOUNTY_CREATION_FEE);
    assert_eq!(treasury.total_volume, 1_000_000_000);
    assert_eq!(treasury.total_bounties_created, 1);
    assert_eq!(treasury.total_bounties_completed, 0);
    assert_eq!(bounty.company, COMPANY);
    assert_eq!(bounty.description_hash, b"task".to_vec());
    assert_eq!(bounty.prize_amount, 1_000_000_000);
    assert_eq!(bounty.deadline_timestamp, Some(CREATED_AT + 1000));
    assert_eq!(bounty.winner, None);
    assert!(!bounty.completed);
    assert!(!bounty.expired);
    assert_eq!(bounty.created_at, CREATED_AT);
    assert_eq!(bounty.expiry_timestamp, CREATED_AT + ESCROW_EXPIRY_SECONDS);
    assert_eq!(bounty.completed_at, None);
    assert_eq!(bounty.submission_hash, None);
    assert_eq!(bounty.escrow_balance, 1_000_000_000);
}

#[test]
fn create_bounty_rejects_long_hash() {
    let mut treasury = initialize_treasury(1);
    let mut company_balance = u64::MAX;
    let mut treasury_balance = 9u64;
    let r = create_bounty(
        COMPANY,
        vec![7u8; 65],
        1_000_000_000,
        None,
        CREATED_AT,
        &mut company_balance,
        &mut treasury,
        &mut treasury_balance,
    );
    assert_eq!(r.unwrap_err(), ErrorCode::DescriptionHashTooLong);
    assert_eq!(company_balance, u64::MAX);
    assert_eq!(treasury_balance, 9);
    assert_eq!(treasury.total_bounties_created, 0);
}

#[test]
fn create_bounty_accepts_hash_at_the_length_bound() {
    let mut treasury = initialize_treasury(1);
    let mut company_balance = u64::MAX;
    let mut treasury_balance = 0u64;
    let r = create_bounty(
        COMPANY,
        vec![7u8; 64],
        1,
        None,
        CREATED_AT,
        &mut company_balance,
        &mut treasury,
        &mut treasury_balance,
    );
    assert!(r.is_ok());
}

#[test]
fn create_bounty_accepts_empty_hash() {
    let mut treasury = initialize_treasury(1);
    let mut company_balance = u64::MAX;
    let mut treasury_balance = 0u64;
    let r = create_bounty(
        COMPANY,
        Vec::new(),
        5,
        None,
        CREATED_AT,
        &mut company_balance,
        &mut treasury,
        &mut treasury_balance,
    );
    assert!(r.is_ok());
    assert_eq!(r.unwrap().description_hash, Vec::<u8>::new());
}

#[test]
fn create_bounty_rejects_zero_prize() {
    let mut treasury = initialize_treasury(1);
    let mut company_balance = u64::MAX;
    let mut treasury_balance = 0u64;
    let r = create_bounty(
        COMPANY,
        b"task".to_vec(),
        0,
        None,
        CREATED_AT,
        &mut company_balance,
        &mut treasury,
        &mut treasury_balance,
    );
    assert_eq!(r.unwrap_err(), ErrorCode::InvalidPrizeAmount);
    assert_eq!(company_balance, u64::MAX);
}

#[test]
fn create_bounty_overflowing_volume_accumulator_changes_nothing() {
    let mut treasury = initialize_treasury(1);
    treasury.total_volume = u64::MAX;
    let before = treasury;
    let mut company_balance = u64::MAX;
    let mut treasury_balance = 3u64;
    let r = create_bounty(
        COMPANY,
        b"task".to_vec(),
        1_000_000_000,
        None,
        CREATED_AT,
        &mut company_balance,
        &mut treasury,
        &mut treasury_balance,
    );
    assert_eq!(r.unwrap_err(), ErrorCode::MathOverflow);
    assert_eq!(treasury, before);
    assert_eq!(company_balance, u64::MAX);
    assert_eq!(treasury_balance, 3);
}

#[test]
fn compute_payout_splits_one_coin() {
    let p = compute_payout(1_000_000_000).expect("fits in 64 bits");
    assert_eq!(p.platform_fee, 10_000_000);
    assert_eq!(p.winner_payout, 990_000_000);
}

#[test]
fn compute_payout_truncates_and_conserves() {
    // 99 value units: a 1% fee truncates to zero, the winner gets it all.
    let p = compute_payout(99).expect("fits in 64 bits");
    assert_eq!(p.platform_fee, 0);
    assert_eq!(p.winner_payout, 99);
    // 150 units: fee is floor(150 / 100) = 1.
    let p = compute_payout(150).expect("fits in 64 bits");
    assert_eq!(p.platform_fee, 1);
    assert_eq!(p.winner_payout, 149);
    assert_eq!(p.platform_fee + p.winner_payout, 150);
}

#[test]
fn compute_payout_overflowing_fee_product_fails() {
    let r = compute_payout(u64::MAX);
    assert_eq!(r.unwrap_err(), ErrorCode::MathOverflow);
}

#[test]
fn select_winner_succeeds_one_second_before_expiry() {
    let (mut bounty, mut treasury, _, mut treasury_balance) = fresh_bounty(1_000_000_000);
    let mut profile = create_hunter_profile(HUNTER, CREATED_AT);
    let mut winner_balance = 0u64;
    let just_before_expiry = bounty.expiry_timestamp - 1;
    let r = select_winner(
        COMPANY,
        &mut bounty,
        HUNTER,
        b"proof".to_vec(),
        just_before_expiry,
        &mut profile,
        &mut treasury,
        &mut treasury_balance,
        &mut winner_balance,
    );
    assert!(r.is_ok());
    assert!(bounty.completed);
}

#[test]
fn select_winner_fails_at_the_expiry_instant() {
    let (mut bounty, mut treasury, _, mut treasury_balance) = fresh_bounty(1_000_000_000);
    let mut profile = create_hunter_profile(HUNTER, CREATED_AT);
    let mut winner_balance = 0u64;
    let at_expiry = bounty.expiry_timestamp;
    let r = select_winner(
        COMPANY,
        &mut bounty,
        HUNTER,
        b"proof".to_vec(),
        at_expiry,
        &mut profile,
        &mut treasury,
        &mut treasury_balance,
        &mut winner_balance,
    );
    assert_eq!(r.unwrap_err(), ErrorCode::BountyExpired);
    assert!(!bounty.completed);
    assert_eq!(winner_balance, 0);
}

#[test]
fn select_winner_by_non_owner_changes_nothing() {
    let (mut bounty, mut treasury, _, mut treasury_balance) = fresh_bounty(1_000_000_000);
    let treasury_before = treasury;
    let treasury_balance_before = treasury_balance;
    let mut profile = create_hunter_profile(HUNTER, CREATED_AT);
    let mut winner_balance = 0u64;
    let r = select_winner(
        COMPANY + 1,
        &mut bounty,
        HUNTER,
        b"proof".to_vec(),
        CREATED_AT + 10,
        &mut profile,
        &mut treasury,
        &mut treasury_balance,
        &mut winner_balance,
    );
    assert_eq!(r.unwrap_err(), ErrorCode::UnauthorizedCompany);
    assert!(!bounty.completed);
    assert_eq!(bounty.winner, None);
    assert_eq!(bounty.escrow_balance, 1_000_000_000);
    assert_eq!(treasury, treasury_before);
    assert_eq!(treasury_balance, treasury_balance_before);
    assert_eq!(winner_balance, 0);
    assert_eq!(profile.bounties_completed, 0);
}

#[test]
fn select_winner_overflowing_fee_product_changes_nothing() {
    // A prize whose basis-point product exceeds 64 bits: creation is fine,
    // selection must fail without moving a unit.
    let prize = u64::MAX / 100 + 1;
    let (mut bounty, mut treasury, _, mut treasury_balance) = fresh_bounty(prize);
    let treasury_before = treasury;
    let treasury_balance_before = treasury_balance;
    let mut profile = create_hunter_profile(HUNTER, CREATED_AT);
    let mut winner_balance = 0u64;
    let r = select_winner(
        COMPANY,
        &mut bounty,
        HUNTER,
        b"proof".to_vec(),
        CREATED_AT + 10,
        &mut profile,
        &mut treasury,
        &mut treasury_balance,
        &mut winner_balance,
    );
    assert_eq!(r.unwrap_err(), ErrorCode::MathOverflow);
    assert!(!bounty.completed);
    assert_eq!(bounty.escrow_balance, prize);
    assert_eq!(treasury, treasury_before);
    assert_eq!(treasury_balance, treasury_balance_before);
    assert_eq!(winner_balance, 0);
    assert_eq!(profile.bounties_completed, 0);
}

#[test]
fn reclaim_fails_one_second_before_expiry() {
    let (mut bounty, mut treasury, _, mut treasury_balance) = fresh_bounty(1_000_000_000);
    let just_before_expiry = bounty.expiry_timestamp - 1;
    let r = reclaim_expired_bounty(
        &mut bounty,
        just_before_expiry,
        0,
        &mut treasury,
        &mut treasury_balance,
    );
    assert_eq!(r.unwrap_err(), ErrorCode::BountyNotExpired);
    assert!(!bounty.expired);
}

#[test]
fn reclaim_succeeds_at_the_expiry_instant() {
    let (mut bounty, mut treasury, _, mut treasury_balance) = fresh_bounty(1_000_000_000);
    let at_expiry = bounty.expiry_timestamp;
    let amount = reclaim_expired_bounty(&mut bounty, at_expiry, 0, &mut treasury, &mut treasury_balance)
        .expect("reclaim at the expiry instant succeeds");
    assert_eq!(amount, 1_000_000_000);
    assert!(bounty.expired);
    assert_eq!(bounty.completed_at, Some(at_expiry));
}

#[test]
fn reclaim_leaves_the_reserved_minimum_behind() {
    let (mut bounty, mut treasury, _, mut treasury_balance) = fresh_bounty(1_000_000_000);
    let at_expiry = bounty.expiry_timestamp;
    let amount =
        reclaim_expired_bounty(&mut bounty, at_expiry, 890_880, &mut treasury, &mut treasury_balance)
            .expect("reclaim at the expiry instant succeeds");
    assert_eq!(amount, 1_000_000_000 - 890_880);
    assert_eq!(bounty.escrow_balance, 890_880);
    assert_eq!(treasury.total_expired_funds_reclaimed, amount);
}

#[test]
fn reclaim_of_escrow_below_the_reserved_minimum_moves_nothing() {
    let (mut bounty, mut treasury, _, mut treasury_balance) = fresh_bounty(100);
    let at_expiry = bounty.expiry_timestamp;
    let before = treasury_balance;
    let amount =
        reclaim_expired_bounty(&mut bounty, at_expiry, 890_880, &mut treasury, &mut treasury_balance)
            .expect("reclaim at the expiry instant succeeds");
    assert_eq!(amount, 0);
    assert_eq!(bounty.escrow_balance, 100);
    assert_eq!(treasury_balance, before);
    assert!(bounty.expired);
}

#[test]
fn reclaim_of_completed_bounty_fails() {
    let (mut bounty, mut treasury, _, mut treasury_balance) = fresh_bounty(1_000_000_000);
    let mut profile = create_hunter_profile(HUNTER, CREATED_AT);
    let mut winner_balance = 0u64;
    select_winner(
        COMPANY,
        &mut bounty,
        HUNTER,
        b"proof".to_vec(),
        CREATED_AT + 10,
        &mut profile,
        &mut treasury,
        &mut treasury_balance,
        &mut winner_balance,
    )
    .expect("selection on an active bounty succeeds");
    let at_expiry = bounty.expiry_timestamp;
    let r = reclaim_expired_bounty(
        &mut bounty,
        at_expiry,
        0,
        &mut treasury,
        &mut treasury_balance,
    );
    assert_eq!(r.unwrap_err(), ErrorCode::BountyAlreadyCompleted);
    assert!(!bounty.expired);
}

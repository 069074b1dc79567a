//! The ledger records and their well-formedness invariant.

use vstd::prelude::*;

verus! {

/// Smallest indivisible unit of the ledger's currency: one whole coin is
/// this many value units (display scaling only; no rule depends on it).
pub const LAMPORTS_PER_SOL: u64 = 1_000_000_000;

/// Flat fee a company pays the treasury when creating a bounty.
pub const BOUNTY_CREATION_FEE: u64 = 1_000_000;

/// Platform fee on a paid-out prize, in basis points (100 bps = 1%).
pub const PLATFORM_FEE_BPS: u16 = 100;

/// Basis points in a whole: fees are `amount * bps / 10_000`, truncating.
pub const FEE_DENOMINATOR_BPS: u64 = 10_000;

/// Longest accepted off-chain content reference, in bytes.
pub const MAX_DESCRIPTION_HASH_LEN: usize = 64;

/// How long escrow stays claimable: 180 days, in seconds. A bounty created
/// at `t` can pay a winner strictly before `t + ESCROW_EXPIRY_SECONDS` and
/// can be reclaimed from that instant on.
pub const ESCROW_EXPIRY_SECONDS: i64 = 15_552_000;

/// An opaque party identity, issued by the environment. The engine never
/// inspects it beyond comparing for equality.
pub type Identity = u64;

/// Aggregate platform statistics and the singleton fee-collection record.
/// All five counters only ever grow.
#[derive(Clone, Copy, Debug, PartialEq, Eq, Structural)]
pub struct Treasury {
    /// Identity of the deployer; informational, never used to authorize.
    pub authority: Identity,
    /// Sum of all creation fees and platform fees ever collected.
    pub total_fees_collected: u64,
    /// How many bounties were ever created.
    pub total_bounties_created: u32,
    /// How many bounties ever reached a winner.
    pub total_bounties_completed: u32,
    /// Sum of all prize amounts ever escrowed.
    pub total_volume: u64,
    /// Sum of all escrow ever reclaimed after expiry.
    pub total_expired_funds_reclaimed: u64,
}

/// One escrowed bounty: its immutable terms, its lifecycle flags and the
/// value units its record currently holds in escrow.
#[derive(Debug)]
pub struct Bounty {
    /// The company that created the bounty; the only party allowed to
    /// select a winner. Immutable.
    pub company: Identity,
    /// Opaque reference to the full task description stored off-chain,
    /// at most [`MAX_DESCRIPTION_HASH_LEN`] bytes. Immutable.
    pub description_hash: Vec<u8>,
    /// Value units escrowed at creation. Immutable.
    pub prize_amount: u64,
    /// Informational deadline; no operation enforces it.
    pub deadline_timestamp: Option<i64>,
    /// The selected hunter; set exactly once, on completion.
    pub winner: Option<Identity>,
    /// Terminal flag: a winner was paid. Mutually exclusive with `expired`.
    pub completed: bool,
    /// When the bounty was created.
    pub created_at: i64,
    /// When the bounty reached a terminal state (completion or reclaim).
    pub completed_at: Option<i64>,
    /// Opaque reference to the winning submission, set only on completion,
    /// at most [`MAX_DESCRIPTION_HASH_LEN`] bytes.
    pub submission_hash: Option<Vec<u8>>,
    /// `created_at + ESCROW_EXPIRY_SECONDS`. Immutable.
    pub expiry_timestamp: i64,
    /// Terminal flag: escrow reverted to the treasury after expiry.
    pub expired: bool,
    /// Value units the bounty record currently holds.
    pub escrow_balance: u64,
}

/// One hunter's on-chain reputation record.
#[derive(Clone, Copy, Debug, PartialEq, Eq, Structural)]
pub struct HunterProfile {
    /// The hunter this record belongs to.
    pub hunter: Identity,
    /// How many bounties this hunter has won; only ever grows.
    pub bounties_completed: u32,
    /// When the profile was created.
    pub created_at: i64,
}

/// How a paid-out prize splits between the platform and the winner.
/// The two parts always sum to the bounty's exact prize amount.
#[derive(Clone, Copy, Debug, PartialEq, Eq, Structural)]
pub struct Payout {
    /// The platform's cut, credited to the treasury.
    pub platform_fee: u64,
    /// The remainder, credited to the winner.
    pub winner_payout: u64,
}

/// A bounty that is neither completed nor expired: its escrow is still
/// locked and both terminal transitions are still open to it.
pub open spec fn bounty_is_active(b: Bounty) -> bool {
    !b.completed && !b.expired
}

/// The invariant every bounty satisfies from creation on: the terms are in
/// range, the expiry is the fixed window after creation, at most one
/// terminal flag is set, and the escrow balance and the completion fields
/// agree with the lifecycle state.
pub open spec fn bounty_well_formed(b: Bounty) -> bool {
    &&& b.description_hash@.len() <= MAX_DESCRIPTION_HASH_LEN
    &&& b.prize_amount > 0
    &&& b.expiry_timestamp == b.created_at + ESCROW_EXPIRY_SECONDS
    &&& !(b.completed && b.expired)
    &&& (bounty_is_active(b) ==> {
        &&& b.escrow_balance == b.prize_amount
        &&& b.winner is None
        &&& b.completed_at is None
        &&& b.submission_hash is None
    })
    &&& (b.completed ==> {
        &&& b.escrow_balance == 0
        &&& b.winner is Some
        &&& b.completed_at is Some
        &&& b.submission_hash is Some
    })
    &&& (b.expired ==> {
        &&& b.escrow_balance <= b.prize_amount
        &&& b.winner is None
        &&& b.completed_at is Some
        &&& b.submission_hash is None
    })
    &&& (b.submission_hash matches Some(s) ==> s@.len() <= MAX_DESCRIPTION_HASH_LEN)
}

} // verus!

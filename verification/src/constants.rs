use vstd::prelude::*;

verus! {

/// Red numbers on a European roulette wheel.
pub const RED_NUMBERS: [u32; 18] = [1, 3, 5, 7, 9, 12, 14, 16, 18, 19, 21, 23, 25, 27, 30, 32, 34, 36];

/// Ledgers a cranker has to reveal before the player may claim a timeout.
pub const TIMEOUT_LEDGERS: u32 = 100;

/// Minimum cranker bond, in the smallest unit of the settlement asset.
pub const MIN_BOND: i128 = 500_000_000;

/// Cranker fee on a lost stake, in basis points.
pub const CRANKER_FEE_BPS: u32 = 1000;

/// Largest single bet as a fraction of the pool balance, in basis points.
pub const MAX_BET_RATIO_BPS: u32 = 200;

/// Basis points denominator.
pub const BPS_DENOMINATOR: u32 = 10_000;

/// Total return on a winning straight bet, stake included.
pub const PAYOUT_STRAIGHT: i128 = 36;

/// Total return on a winning even-money bet, stake included.
pub const PAYOUT_EVEN_MONEY: i128 = 2;

/// Total return on a winning dozen bet, stake included.
pub const PAYOUT_DOZEN: i128 = 3;

/// Lifetime of round and bet records, in ledgers.
pub const GAME_TTL_LEDGERS: u32 = 518_400;

/// Number of public inputs of the circuit.
pub const ZK_PUBLIC_INPUTS: usize = 4;

/// Scale of the share price: the price of one share in a pool that has never
/// absorbed or paid anything.
pub const SHARE_PRICE_PRECISION: i128 = 10_000_000;

/// The outcome recorded where a round has none: before the reveal, and after
/// a timeout.
pub const NO_OUTCOME: u32 = 37;

} // verus!

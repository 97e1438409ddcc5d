use crate::field::same_bytes;
use vstd::prelude::*;

verus! {

/// The bets a player can place.
#[derive(Clone, Copy, Debug, PartialEq, Eq, Structural)]
pub enum BetType {
    /// One number, 0 to 36.
    Straight(u32),
    Red,
    Black,
    Even,
    Odd,
    /// 1 to 18.
    Low,
    /// 19 to 36.
    High,
    /// The first (1 to 12), second (13 to 24) or third (25 to 36) dozen.
    Dozen(u32),
}

/// Where a round stands.
#[derive(Clone, Copy, Debug, PartialEq, Eq, Structural)]
pub enum RoundStatus {
    /// The cranker has committed; no bet yet.
    Open,
    /// A stake is in escrow; the reveal is awaited.
    BetPlaced,
    /// Revealed and paid.
    Settled,
    /// The cranker did not reveal in time.
    TimedOut,
}

/// Whether an identity is an account, which signs for itself, or a contract.
#[derive(Clone, Copy, Debug, PartialEq, Eq, Structural)]
pub enum IdentityKind {
    Account,
    Contract,
}

/// A party to the game: an account or a contract, as its 32-byte key or hash.
#[derive(Clone, Copy, Debug, PartialEq, Eq)]
pub struct Identity {
    pub kind: IdentityKind,
    pub key: [u8; 32],
}

/// One play cycle: a cranker's commitment, then a bet, then the reveal or a
/// timeout.
#[derive(Clone, Copy, Debug, PartialEq, Eq)]
pub struct Round {
    pub id: u64,
    pub cranker: Identity,
    /// The hash the cranker committed to.
    pub commit: [u8; 32],
    /// The cranker's collateral, held in escrow.
    pub bond: i128,
    pub status: RoundStatus,
    /// The ledger at which the commitment was made.
    pub commit_ledger: u32,
    /// The pocket the round settled on, 0 to 36; 37 while there is none.
    pub result: u32,
}

/// The bet of a round.
#[derive(Clone, Copy, Debug, PartialEq, Eq)]
pub struct StoredBet {
    pub player: Identity,
    pub bet_type: BetType,
    pub amount: i128,
    pub seed_player: [u8; 32],
}

/// An amount that whoever holds the funds must hand to someone.
#[derive(Clone, Copy, Debug, PartialEq, Eq)]
pub struct Payment {
    pub to: Identity,
    pub amount: i128,
}

/// An amount to be taken from someone into escrow.
#[derive(Clone, Copy, Debug, PartialEq, Eq)]
pub struct Escrow {
    pub from: Identity,
    pub amount: i128,
}

/// What the engine asks of the pool when a round settles.
#[derive(Clone, Copy, Debug, PartialEq, Eq)]
pub enum PoolOrder {
    /// Pay the winner the net winnings.
    Payout { winner: Identity, amount: i128 },
    /// Take in what is left of a lost stake.
    Absorb { amount: i128 },
}

/// What the engine tells the session hub when a round opens.
#[derive(Clone, Copy, Debug, PartialEq, Eq)]
pub struct StartNotice {
    pub session_id: u32,
    pub player1: Identity,
    pub player2: Identity,
    pub player1_points: i128,
    pub player2_points: i128,
}

/// What the engine tells the session hub when a round ends.
#[derive(Clone, Copy, Debug, PartialEq, Eq, Structural)]
pub struct EndNotice {
    pub session_id: u32,
    pub player1_won: bool,
    pub timed_out: bool,
    pub bet_amount: i128,
    pub result: u32,
}

/// What a settled bet moves: from the pool to the player on a win, from the
/// stake to the pool and the cranker on a loss.
#[derive(Clone, Copy, Debug, PartialEq, Eq, Structural)]
pub struct SettlementResult {
    pub player_won: bool,
    /// Net winnings the pool pays; 0 on a loss.
    pub payout: i128,
    /// Part of the stake the pool keeps; 0 on a win.
    pub pool_absorb: i128,
    /// Part of the stake the cranker keeps; 0 on a win.
    pub cranker_fee: i128,
}

/// A settlement as numbers without bounds.
pub struct Settlement {
    pub player_won: bool,
    pub payout: int,
    pub pool_absorb: int,
    pub cranker_fee: int,
}

impl View for SettlementResult {
    type V = Settlement;

    open spec fn view(&self) -> Settlement {
        Settlement {
            player_won: self.player_won,
            payout: self.payout as int,
            pool_absorb: self.pool_absorb as int,
            cranker_fee: self.cranker_fee as int,
        }
    }
}

impl Identity {
    /// Whether two identities are the same party.
    pub fn same_as(&self, other: &Identity) -> (same: bool)
        ensures
            same == (*self == *other),
    {
        if !same_bytes(&self.key, &other.key) {
            return false;
        }
        assert(self.key =~= other.key);
        self.kind == other.kind
    }
}

} // verus!

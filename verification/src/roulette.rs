//! The round engine: a cranker commits, a player bets, and the round ends with
//! the cranker's reveal or, failing that, with the player's timeout claim.
//!
//! The engine decides and keeps the round; it moves no funds itself. Each
//! operation returns what is to be moved and whom to tell.
//!
//! A reveal settles a round only with a proof whose public inputs are that
//! round's commitment, the seed revealed, the seed of the bet and the outcome
//! the two seeds give, and only if the verifier accepts that proof.

use crate::constants::{MIN_BOND, NO_OUTCOME, TIMEOUT_LEDGERS};
use crate::field::{be_bytes, be_bytes_of_be_nat, be_nat, be_nat_of_32, be_nat_step, same_bytes};
use crate::settlement::{compute_settlement, get_multiplier, multiplier, net_winnings, settlement};
use crate::types::{
    BetType, EndNotice, Escrow, Identity, Payment, PoolOrder, Round, RoundStatus, SettlementResult, StartNotice,
    StoredBet,
};
use crate::verification::{blob_inputs, blob_verdict, extract, VerifierContract, BLOB_BYTES};
use crate::zk::VerifyError;
use vstd::prelude::*;

verus! {

/// Why the engine refused an operation.
#[derive(Clone, Copy, Debug, PartialEq, Eq, Structural)]
pub enum RoundError {
    /// A bet is in escrow: the round must end by reveal or timeout first.
    RoundInProgress,
    /// The bond is below the minimum.
    BondBelowMinimum,
    /// The round or session counter has reached its limit.
    CounterOverflow,
    /// No round has been opened.
    NoActiveRound,
    /// The round takes no bet: it has one, or it has ended.
    RoundNotOpen,
    /// The cranker may not bet on the round it opened.
    CrankerCannotBet,
    /// A stake of zero or less.
    BetNotPositive,
    /// A straight bet on a number above 36.
    InvalidStraight,
    /// A dozen other than the first, second or third.
    InvalidDozen,
    /// The stake is above the pool's largest bet.
    BetExceedsMax,
    /// The pool holds less than the bet could win.
    PoolCannotCover,
    /// The round has no bet awaiting a reveal.
    BetNotPlaced,
    /// The caller is not the cranker of the round.
    NotRoundCranker,
    /// The proof speaks of another commitment, of other seeds or of another
    /// outcome than this reveal.
    ProofNotForRound,
    /// The proof was not accepted.
    InvalidProof,
    /// The caller is not the player of the round.
    NotThePlayer,
    /// The cranker may still reveal.
    TimeoutNotReached,
}

/// What opening a round moves and reports.
#[derive(Clone, Copy, Debug, PartialEq, Eq)]
pub struct CommitReceipt {
    pub round_id: u64,
    /// The bond of a round that was replaced before anyone bet on it.
    pub refund: Option<Payment>,
    /// The new round's bond.
    pub escrow: Escrow,
    pub notice: StartNotice,
}

/// What placing a bet moves.
#[derive(Clone, Copy, Debug, PartialEq, Eq)]
pub struct BetReceipt {
    pub round_id: u64,
    /// The stake.
    pub escrow: Escrow,
}

/// What settling a round moves and reports.
#[derive(Clone, Copy, Debug, PartialEq, Eq)]
pub struct SettleReceipt {
    pub round_id: u64,
    pub outcome: u32,
    pub settlement: SettlementResult,
    /// Where the stake goes from escrow: back to the player on a win; to the
    /// pool, less the fee, on a loss.
    pub stake: Payment,
    pub pool_order: PoolOrder,
    /// The cranker's fee on a loss, where there is one.
    pub fee: Option<Payment>,
    /// The bond, back to the cranker.
    pub bond: Payment,
    pub notice: EndNotice,
}

/// What a timeout moves and reports.
#[derive(Clone, Copy, Debug, PartialEq, Eq)]
pub struct TimeoutReceipt {
    pub round_id: u64,
    /// The stake, back to the player.
    pub stake: Payment,
    /// The cranker's bond, forfeited to the player.
    pub bond: Payment,
    pub notice: EndNotice,
}

/// The state of the engine.
pub struct RouletteContract {
    admin: Identity,
    pool: Identity,
    verifier: Identity,
    hub: Identity,
    token: Identity,
    round: Option<Round>,
    bet: Option<StoredBet>,
    round_counter: u64,
    hub_session_id: u32,
}

/// The number a seed contributes: its last eight bytes, big-endian.
pub open spec fn seed_tail(seed: Seq<u8>) -> nat {
    be_nat(seed.subrange(24, 32))
}

/// The pocket two seeds settle on: the sum of their tails modulo 37.
pub open spec fn outcome_of(seed_cranker: Seq<u8>, seed_player: Seq<u8>) -> nat {
    (seed_tail(seed_cranker) + seed_tail(seed_player)) % 37
}

/// The public inputs that the proof of a reveal must carry, in order: the
/// commitment, the cranker's seed, the player's seed, and the outcome the two
/// seeds give as a 32-byte big-endian number.
pub open spec fn reveal_inputs(commit: Seq<u8>, seed_cranker: Seq<u8>, seed_player: Seq<u8>) -> Seq<Seq<u8>> {
    seq![commit, seed_cranker, seed_player, be_bytes(outcome_of(seed_cranker, seed_player), 32)]
}

/// Whether a blob is a proof for this reveal: whether it has a blob's length
/// and its public inputs are the round's commitment, the seed revealed, the
/// seed of the bet and their outcome.
pub open spec fn bound_to(proof: Seq<u8>, round: Round, bet: StoredBet, seed_cranker: Seq<u8>) -> bool {
    proof.len() == BLOB_BYTES && blob_inputs(proof) == reveal_inputs(round.commit@, seed_cranker, bet.seed_player@)
}

/// Whether a bet type is one the wheel has.
pub open spec fn valid_bet(bet: BetType) -> bool {
    match bet {
        BetType::Straight(n) => n <= 36,
        BetType::Dozen(d) => 1 <= d <= 3,
        _ => true,
    }
}

/// Whether a round has ended.
pub open spec fn terminal(status: RoundStatus) -> bool {
    status == RoundStatus::Settled || status == RoundStatus::TimedOut
}

/// A round and a bet that belong together: there is a bet exactly when the
/// round has got past `Open`; the round carries the number of the counter and
/// a sufficient bond; the bet is one the wheel has, staked by someone other
/// than the cranker, and what it can win fits the amount type; an outcome is
/// recorded exactly when the round is settled.
pub open spec fn consistent(round: Option<Round>, bet: Option<StoredBet>, round_counter: u64) -> bool {
    match round {
        None => bet is None,
        Some(r) => {
            &&& r.id == round_counter
            &&& r.bond >= MIN_BOND
            &&& (r.status == RoundStatus::Open <==> bet is None)
            &&& (r.status == RoundStatus::Settled ==> r.result <= 36)
            &&& (r.status != RoundStatus::Settled ==> r.result == NO_OUTCOME)
            &&& (bet matches Some(b) ==> {
                &&& b.amount > 0
                &&& valid_bet(b.bet_type)
                &&& b.player != r.cranker
                &&& net_winnings(b.bet_type, b.amount as int) <= i128::MAX
            })
        },
    }
}

/// Why `commit_round` refuses, if it does.
pub open spec fn commit_refusal(round: Option<Round>, round_counter: u64, session_id: u32, bond: i128) -> Option<
    RoundError,
> {
    if round matches Some(r) && r.status == RoundStatus::BetPlaced {
        Some(RoundError::RoundInProgress)
    } else if bond < MIN_BOND {
        Some(RoundError::BondBelowMinimum)
    } else if round_counter == u64::MAX || session_id == u32::MAX {
        Some(RoundError::CounterOverflow)
    } else {
        None
    }
}

/// Why a bet is refused before the pool is asked, if it is: for want of an
/// open round, from the round's cranker, without a stake, or of a type the
/// wheel does not have.
pub open spec fn bet_refusal_before_pool(round: Option<Round>, player: Identity, bet_type: BetType, amount: i128)
    -> Option<RoundError> {
    match round {
        None => Some(RoundError::NoActiveRound),
        Some(r) => if r.status != RoundStatus::Open {
            Some(RoundError::RoundNotOpen)
        } else if player == r.cranker {
            Some(RoundError::CrankerCannotBet)
        } else if amount <= 0 {
            Some(RoundError::BetNotPositive)
        } else if bet_type matches BetType::Straight(n) && n > 36 {
            Some(RoundError::InvalidStraight)
        } else if bet_type matches BetType::Dozen(d) && !(1 <= d <= 3) {
            Some(RoundError::InvalidDozen)
        } else {
            None
        },
    }
}

/// Why `place_bet` refuses, if it does: for what is wrong before the pool is
/// asked, then for a stake above the pool's largest bet, then for winnings
/// the pool could not pay.
pub open spec fn bet_refusal(
    round: Option<Round>,
    player: Identity,
    bet_type: BetType,
    amount: i128,
    max_bet: i128,
    pool_balance: i128,
) -> Option<RoundError> {
    match bet_refusal_before_pool(round, player, bet_type, amount) {
        Some(e) => Some(e),
        None => if amount > max_bet {
            Some(RoundError::BetExceedsMax)
        } else if net_winnings(bet_type, amount as int) > pool_balance {
            Some(RoundError::PoolCannotCover)
        } else {
            None
        },
    }
}

/// Why a reveal is refused, if it is: for want of a bet awaiting it, from
/// anyone but the round's cranker, with a proof that is not for this reveal,
/// and with a proof that was not accepted.
pub open spec fn reveal_refusal(
    round: Option<Round>,
    bet: Option<StoredBet>,
    cranker: Identity,
    seed_cranker: Seq<u8>,
    proof: Seq<u8>,
    proof_valid: bool,
) -> Option<RoundError> {
    match round {
        None => Some(RoundError::NoActiveRound),
        Some(r) => if r.status != RoundStatus::BetPlaced {
            Some(RoundError::BetNotPlaced)
        } else if r.cranker != cranker {
            Some(RoundError::NotRoundCranker)
        } else if !(bet matches Some(b) && bound_to(proof, r, b, seed_cranker)) {
            Some(RoundError::ProofNotForRound)
        } else if !proof_valid {
            Some(RoundError::InvalidProof)
        } else {
            None
        },
    }
}

/// Why `claim_timeout` refuses, if it does.
pub open spec fn timeout_refusal(
    round: Option<Round>,
    bet: Option<StoredBet>,
    player: Identity,
    current_ledger: u32,
) -> Option<RoundError> {
    match round {
        None => Some(RoundError::NoActiveRound),
        Some(r) => if r.status != RoundStatus::BetPlaced {
            Some(RoundError::BetNotPlaced)
        } else if bet matches Some(b) && b.player != player {
            Some(RoundError::NotThePlayer)
        } else if current_ledger <= r.commit_ledger + TIMEOUT_LEDGERS {
            Some(RoundError::TimeoutNotReached)
        } else {
            None
        },
    }
}

/// What settling a round moves and reports, given the outcome and what the
/// bet settles to: on a win the stake goes back to the player and the pool
/// pays the net winnings; on a loss the stake goes to the pool less the
/// cranker's fee, which is paid where it is not nothing. The bond goes back to
/// the cranker either way.
pub open spec fn settle_receipt(
    round: Round,
    bet: StoredBet,
    pool: Identity,
    session_id: u32,
    outcome: u32,
    settlement: SettlementResult,
) -> SettleReceipt {
    SettleReceipt {
        round_id: round.id,
        outcome,
        settlement,
        stake: if settlement.player_won {
            Payment { to: bet.player, amount: bet.amount }
        } else {
            Payment { to: pool, amount: settlement.pool_absorb }
        },
        pool_order: if settlement.player_won {
            PoolOrder::Payout { winner: bet.player, amount: settlement.payout }
        } else {
            PoolOrder::Absorb { amount: settlement.pool_absorb }
        },
        fee: if !settlement.player_won && settlement.cranker_fee > 0 {
            Some(Payment { to: round.cranker, amount: settlement.cranker_fee })
        } else {
            None
        },
        bond: Payment { to: round.cranker, amount: round.bond },
        notice: EndNotice {
            session_id,
            player1_won: settlement.player_won,
            timed_out: false,
            bet_amount: bet.amount,
            result: outcome,
        },
    }
}

/// All that a settlement pays out of escrow: the stake or what is left of it,
/// the cranker's fee, and the bond.
pub open spec fn paid_from_escrow(receipt: SettleReceipt) -> int {
    receipt.stake.amount + receipt.bond.amount + match receipt.fee {
        Some(fee) => fee.amount as int,
        None => 0,
    }
}

/// What a timeout moves and reports: stake and bond both go to the player,
/// and the hub hears of a timeout without an outcome.
pub open spec fn timeout_receipt(round: Round, bet: StoredBet, session_id: u32) -> TimeoutReceipt {
    TimeoutReceipt {
        round_id: round.id,
        stake: Payment { to: bet.player, amount: bet.amount },
        bond: Payment { to: bet.player, amount: round.bond },
        notice: EndNotice {
            session_id,
            player1_won: true,
            timed_out: true,
            bet_amount: bet.amount,
            result: NO_OUTCOME,
        },
    }
}

/// Whether a bet type is one the wheel has.
pub fn bet_is_valid(bet_type: &BetType) -> (ok: bool)
    ensures
        ok == valid_bet(*bet_type),
{
    match bet_type {
        BetType::Straight(n) => *n <= 36,
        BetType::Dozen(d) => 1 <= *d && *d <= 3,
        _ => true,
    }
}

/// Whether what a positive stake can win fits the amount type.
fn winnings_fit(bet_type: &BetType, amount: i128) -> (ok: bool)
    requires
        amount > 0,
    ensures
        ok == (net_winnings(*bet_type, amount as int) <= i128::MAX),
{
    let net: i128 = get_multiplier(bet_type) - 1;
    assert(net_winnings(*bet_type, amount as int) == amount * net) by (nonlinear_arith)
        requires
            net_winnings(*bet_type, amount as int) == net * amount,
    ;
    assert(amount * net >= 0) by (nonlinear_arith)
        requires
            amount > 0,
            net > 0,
    ;
    amount.checked_mul(net).is_some()
}

/// The number a seed contributes to the outcome.
pub fn last_8_bytes_as_u64(bytes: &[u8; 32]) -> (v: u64)
    ensures
        v == seed_tail(bytes@),
{
    proof {
        let t = bytes@.subrange(24, 32);
        assert(be_nat(t.subrange(0, 0)) == 0);
        be_nat_step(t, 0);
        be_nat_step(t, 1);
        be_nat_step(t, 2);
        be_nat_step(t, 3);
        be_nat_step(t, 4);
        be_nat_step(t, 5);
        be_nat_step(t, 6);
        be_nat_step(t, 7);
        assert(t.subrange(0, 8) =~= t);
    }
    let b0: u64 = bytes[24] as u64;
    let b1: u64 = bytes[25] as u64;
    let b2: u64 = bytes[26] as u64;
    let b3: u64 = bytes[27] as u64;
    let b4: u64 = bytes[28] as u64;
    let b5: u64 = bytes[29] as u64;
    let b6: u64 = bytes[30] as u64;
    let b7: u64 = bytes[31] as u64;
    ((((((b0 * 256 + b1) * 256 + b2) * 256 + b3) * 256 + b4) * 256 + b5) * 256 + b6) * 256 + b7
}

/// Whether a blob is a proof for the reveal of `seed_cranker` in this round.
pub fn proof_is_for(round: &Round, bet: &StoredBet, seed_cranker: &[u8; 32], proof: &[u8]) -> (bound: bool)
    ensures
        bound == bound_to(proof@, *round, *bet, seed_cranker@),
{
    match extract(proof) {
        None => false,
        Some((_, inputs)) => {
            let outcome: u32 = compute_result(seed_cranker, &bet.seed_player);
            let mut written: [u8; 32] = [0u8; 32];
            written[31] = outcome as u8;
            proof {
                be_nat_of_32(written@);
                be_bytes_of_be_nat(written@);
                let wanted = reveal_inputs(round.commit@, seed_cranker@, bet.seed_player@);
                assert(blob_inputs(proof@) == wanted <==> inputs@[0]@ == wanted[0] && inputs@[1]@ == wanted[1]
                    && inputs@[2]@ == wanted[2] && inputs@[3]@ == wanted[3]) by {
                    if inputs@[0]@ == wanted[0] && inputs@[1]@ == wanted[1] && inputs@[2]@ == wanted[2]
                        && inputs@[3]@ == wanted[3] {
                        assert(blob_inputs(proof@) =~= wanted);
                    }
                }
            }
            same_bytes(&inputs[0], &round.commit) && same_bytes(&inputs[1], seed_cranker) && same_bytes(
                &inputs[2],
                &bet.seed_player,
            ) && same_bytes(&inputs[3], &written)
        },
    }
}

/// The pocket a round settles on, from the two seeds.
pub fn compute_result(seed_cranker: &[u8; 32], seed_player: &[u8; 32]) -> (outcome: u32)
    ensures
        outcome == outcome_of(seed_cranker@, seed_player@),
        outcome <= 36,
{
    let a_val: u64 = last_8_bytes_as_u64(seed_cranker);
    let b_val: u64 = last_8_bytes_as_u64(seed_player);
    let combined: u128 = a_val as u128 + b_val as u128;
    (combined % 37) as u32
}

impl RouletteContract {
    /// The engine holds a round and a bet that belong together.
    pub closed spec fn wf(&self) -> bool {
        consistent(self.round, self.bet, self.round_counter)
    }

    /// Who administers the engine.
    pub closed spec fn admin(&self) -> Identity {
        self.admin
    }

    /// The pool that backs the bets.
    pub closed spec fn pool(&self) -> Identity {
        self.pool
    }

    /// The verifier that judges the proofs.
    pub closed spec fn proof_verifier(&self) -> Identity {
        self.verifier
    }

    /// The hub that is told of every round.
    pub closed spec fn hub(&self) -> Identity {
        self.hub
    }

    /// The asset that is staked.
    pub closed spec fn token(&self) -> Identity {
        self.token
    }

    /// The round that was opened last, if any was.
    pub closed spec fn round(&self) -> Option<Round> {
        self.round
    }

    /// The bet of that round, if it has one.
    pub closed spec fn bet(&self) -> Option<StoredBet> {
        self.bet
    }

    /// The number of the round that was opened last; 0 before the first.
    pub closed spec fn round_counter(&self) -> u64 {
        self.round_counter
    }

    /// The number of the session that was reported last; 0 before the first.
    pub closed spec fn session_id(&self) -> u32 {
        self.hub_session_id
    }

    /// Whether two states of the engine name the same collaborators.
    pub open spec fn same_setup(&self, other: &RouletteContract) -> bool {
        &&& self.admin() == other.admin()
        &&& self.pool() == other.pool()
        &&& self.proof_verifier() == other.proof_verifier()
        &&& self.hub() == other.hub()
        &&& self.token() == other.token()
    }

    /// What a well-formed engine holds, for those who cannot see inside.
    pub proof fn round_and_bet_belong_together(&self)
        requires
            self.wf(),
        ensures
            consistent(self.round(), self.bet(), self.round_counter()),
    {
    }

    /// An engine without a round.
    pub fn new(admin: Identity, pool: Identity, verifier: Identity, hub: Identity, token: Identity) -> (engine:
        RouletteContract)
        ensures
            engine.wf(),
            engine.admin() == admin,
            engine.pool() == pool,
            engine.proof_verifier() == verifier,
            engine.hub() == hub,
            engine.token() == token,
            engine.round() is None,
            engine.bet() is None,
            engine.round_counter() == 0,
            engine.session_id() == 0,
    {
        RouletteContract {
            admin,
            pool,
            verifier,
            hub,
            token,
            round: None,
            bet: None,
            round_counter: 0,
            hub_session_id: 0,
        }
    }

    /// An engine as it was written down: `None` unless round and bet belong
    /// together.
    pub fn restore(
        admin: Identity,
        pool: Identity,
        verifier: Identity,
        hub: Identity,
        token: Identity,
        round: Option<Round>,
        bet: Option<StoredBet>,
        round_counter: u64,
        hub_session_id: u32,
    ) -> (engine: Option<RouletteContract>)
        ensures
            engine is Some <==> consistent(round, bet, round_counter),
            engine matches Some(e) ==> {
                &&& e.wf()
                &&& e.admin() == admin
                &&& e.pool() == pool
                &&& e.proof_verifier() == verifier
                &&& e.hub() == hub
                &&& e.token() == token
                &&& e.round() == round
                &&& e.bet() == bet
                &&& e.round_counter() == round_counter
                &&& e.session_id() == hub_session_id
            },
    {
        let ok: bool = match &round {
            None => bet.is_none(),
            Some(r) => {
                let round_ok: bool = r.id == round_counter && r.bond >= MIN_BOND && (r.status
                    == RoundStatus::Open) == bet.is_none() && if r.status == RoundStatus::Settled {
                    r.result <= 36
                } else {
                    r.result == NO_OUTCOME
                };
                round_ok && match &bet {
                    None => true,
                    Some(b) => b.amount > 0 && bet_is_valid(&b.bet_type) && !b.player.same_as(&r.cranker)
                        && winnings_fit(&b.bet_type, b.amount),
                }
            },
        };
        if ok {
            Some(
                RouletteContract {
                    admin,
                    pool,
                    verifier,
                    hub,
                    token,
                    round,
                    bet,
                    round_counter,
                    hub_session_id,
                },
            )
        } else {
            None
        }
    }

    /// Who administers the engine.
    pub fn get_admin(&self) -> (a: Identity)
        ensures
            a == self.admin(),
    {
        self.admin
    }

    /// The pool that backs the bets.
    pub fn get_pool(&self) -> (p: Identity)
        ensures
            p == self.pool(),
    {
        self.pool
    }

    /// The verifier that judges the proofs.
    pub fn get_verifier(&self) -> (v: Identity)
        ensures
            v == self.proof_verifier(),
    {
        self.verifier
    }

    /// The hub that is told of every round.
    pub fn get_hub(&self) -> (h: Identity)
        ensures
            h == self.hub(),
    {
        self.hub
    }

    /// The asset that is staked.
    pub fn get_token(&self) -> (t: Identity)
        ensures
            t == self.token(),
    {
        self.token
    }

    /// The number of the session that was reported last.
    pub fn get_hub_session_id(&self) -> (n: u32)
        ensures
            n == self.session_id(),
    {
        self.hub_session_id
    }

    /// The round that was opened last.
    pub fn get_current_round(&self) -> (r: Option<Round>)
        ensures
            r == self.round(),
    {
        self.round
    }

    /// The bet of that round, which the cranker reads the player's seed from.
    pub fn get_current_bet(&self) -> (b: Option<StoredBet>)
        ensures
            b == self.bet(),
    {
        self.bet
    }

    /// The number of the round that was opened last.
    pub fn get_round_counter(&self) -> (n: u64)
        ensures
            n == self.round_counter(),
    {
        self.round_counter
    }

    /// A cranker opens a round on a commitment, with a bond. A round nobody
    /// bet on is replaced and its bond refunded; a round that has ended is
    /// replaced; a round with a bet in escrow stands.
    pub fn commit_round(&mut self, cranker: Identity, commit: [u8; 32], bond: i128, ledger: u32) -> (r: Result<
        CommitReceipt,
        RoundError,
    >)
        requires
            old(self).wf(),
        ensures
            final(self).wf(),
            final(self).same_setup(old(self)),
            match r {
                Ok(receipt) => {
                    &&& commit_refusal(old(self).round(), old(self).round_counter(), old(self).session_id(), bond)
                        is None
                    &&& final(self).round_counter() == old(self).round_counter() + 1
                    &&& final(self).session_id() == old(self).session_id() + 1
                    &&& final(self).round() == Some(
                        Round {
                            id: final(self).round_counter(),
                            cranker,
                            commit,
                            bond,
                            status: RoundStatus::Open,
                            commit_ledger: ledger,
                            result: NO_OUTCOME,
                        },
                    )
                    &&& final(self).bet() is None
                    &&& receipt.round_id == final(self).round_counter()
                    &&& receipt.refund == match old(self).round() {
                        Some(prev) => if prev.status == RoundStatus::Open {
                            Some(Payment { to: prev.cranker, amount: prev.bond })
                        } else {
                            None
                        },
                        None => None,
                    }
                    &&& receipt.escrow == (Escrow { from: cranker, amount: bond })
                    &&& receipt.notice == (StartNotice {
                        session_id: final(self).session_id(),
                        player1: cranker,
                        player2: cranker,
                        player1_points: bond,
                        player2_points: 0,
                    })
                },
                Err(e) => {
                    &&& commit_refusal(old(self).round(), old(self).round_counter(), old(self).session_id(), bond)
                        == Some(e)
                    &&& *final(self) == *old(self)
                },
            },
    {
        let mut refund: Option<Payment> = None;
        match &self.round {
            Some(prev) => {
                match prev.status {
                    RoundStatus::BetPlaced => { return Err(RoundError::RoundInProgress); },
                    RoundStatus::Open => {
                        refund = Some(Payment { to: prev.cranker, amount: prev.bond });
                    },
                    _ => {},
                }
            },
            None => {},
        }
        if bond < MIN_BOND {
            return Err(RoundError::BondBelowMinimum);
        }
        if self.round_counter == u64::MAX || self.hub_session_id == u32::MAX {
            return Err(RoundError::CounterOverflow);
        }
        let round_id: u64 = self.round_counter + 1;
        let session_id: u32 = self.hub_session_id + 1;
        self.round_counter = round_id;
        self.hub_session_id = session_id;
        self.round = Some(
            Round {
                id: round_id,
                cranker,
                commit,
                bond,
                status: RoundStatus::Open,
                commit_ledger: ledger,
                result: NO_OUTCOME,
            },
        );
        self.bet = None;
        Ok(
            CommitReceipt {
                round_id,
                refund,
                escrow: Escrow { from: cranker, amount: bond },
                notice: StartNotice {
                    session_id,
                    player1: cranker,
                    player2: cranker,
                    player1_points: bond,
                    player2_points: 0,
                },
            },
        )
    }

    /// Whether this bet is worth asking the pool about: whether the round is
    /// open, `player` is not its cranker, and stake and bet type are in order.
    pub fn check_bet(&self, player: &Identity, bet_type: &BetType, amount: i128) -> (r: Result<(), RoundError>)
        ensures
            r == match bet_refusal_before_pool(self.round(), *player, *bet_type, amount) {
                Some(e) => Err::<(), RoundError>(e),
                None => Ok::<(), RoundError>(()),
            },
    {
        match &self.round {
            None => Err(RoundError::NoActiveRound),
            Some(round) => {
                if round.status != RoundStatus::Open {
                    return Err(RoundError::RoundNotOpen);
                }
                if player.same_as(&round.cranker) {
                    return Err(RoundError::CrankerCannotBet);
                }
                if amount <= 0 {
                    return Err(RoundError::BetNotPositive);
                }
                match bet_type {
                    BetType::Straight(n) => if *n > 36 {
                        Err(RoundError::InvalidStraight)
                    } else {
                        Ok(())
                    },
                    BetType::Dozen(d) => if *d < 1 || *d > 3 {
                        Err(RoundError::InvalidDozen)
                    } else {
                        Ok(())
                    },
                    _ => Ok(()),
                }
            },
        }
    }

    /// A player bets on the open round. `max_bet` and `pool_balance` are what
    /// the pool answers when asked for its largest bet and its balance.
    pub fn place_bet(
        &mut self,
        player: Identity,
        bet_type: BetType,
        seed_player: [u8; 32],
        amount: i128,
        max_bet: i128,
        pool_balance: i128,
    ) -> (r: Result<BetReceipt, RoundError>)
        requires
            old(self).wf(),
        ensures
            final(self).wf(),
            final(self).same_setup(old(self)),
            final(self).round_counter() == old(self).round_counter(),
            final(self).session_id() == old(self).session_id(),
            match r {
                Ok(receipt) => {
                    &&& bet_refusal(old(self).round(), player, bet_type, amount, max_bet, pool_balance) is None
                    &&& final(self).round() == Some(
                        Round { status: RoundStatus::BetPlaced, ..old(self).round().unwrap() },
                    )
                    &&& final(self).bet() == Some(StoredBet { player, bet_type, amount, seed_player })
                    &&& receipt.round_id == old(self).round().unwrap().id
                    &&& receipt.escrow == (Escrow { from: player, amount })
                },
                Err(e) => {
                    &&& bet_refusal(old(self).round(), player, bet_type, amount, max_bet, pool_balance) == Some(e)
                    &&& *final(self) == *old(self)
                },
            },
    {
        match self.check_bet(&player, &bet_type, amount) {
            Err(e) => { return Err(e); },
            Ok(_) => {},
        }
        let mut round: Round = match self.round {
            Some(r) => r,
            // a bet that passed the look above has a round
            None => { return Err(RoundError::NoActiveRound); },
        };
        if amount > max_bet {
            return Err(RoundError::BetExceedsMax);
        }
        let net: i128 = get_multiplier(&bet_type) - 1;
        assert(net_winnings(bet_type, amount as int) == amount * net) by (nonlinear_arith)
            requires
                net_winnings(bet_type, amount as int) == net * amount,
        ;
        match amount.checked_mul(net) {
            Some(max_payout) => {
                if max_payout > pool_balance {
                    return Err(RoundError::PoolCannotCover);
                }
            },
            None => {
                assert(amount * net >= 0) by (nonlinear_arith)
                    requires
                        amount > 0,
                        net > 0,
                ;
                return Err(RoundError::PoolCannotCover);
            },
        }
        round.status = RoundStatus::BetPlaced;
        self.bet = Some(StoredBet { player, bet_type, amount, seed_player });
        self.round = Some(round);
        Ok(BetReceipt { round_id: round.id, escrow: Escrow { from: player, amount } })
    }

    /// Whether this reveal is worth taking to the verifier: whether a bet
    /// awaits it, `cranker` is the round's, and the proof is for this round
    /// and this seed.
    pub fn check_reveal(&self, cranker: &Identity, seed_cranker: &[u8; 32], proof: &[u8]) -> (r: Result<
        (),
        RoundError,
    >)
        ensures
            r == match reveal_refusal(self.round(), self.bet(), *cranker, seed_cranker@, proof@, true) {
                Some(e) => Err::<(), RoundError>(e),
                None => Ok::<(), RoundError>(()),
            },
    {
        match &self.round {
            None => Err(RoundError::NoActiveRound),
            Some(round) => {
                if round.status != RoundStatus::BetPlaced {
                    return Err(RoundError::BetNotPlaced);
                }
                if !round.cranker.same_as(cranker) {
                    return Err(RoundError::NotRoundCranker);
                }
                match &self.bet {
                    Some(bet) => {
                        if proof_is_for(round, bet, seed_cranker, proof) {
                            Ok(())
                        } else {
                            Err(RoundError::ProofNotForRound)
                        }
                    },
                    None => Err(RoundError::ProofNotForRound),
                }
            },
        }
    }

    /// Settles the round on the cranker's seed, given the proof that came
    /// with it and the verifier's word on that proof. The proof's public
    /// inputs are held against the round here; whether the proof holds is
    /// the verifier's to say.
    pub fn settle_round(&mut self, cranker: Identity, seed_cranker: [u8; 32], proof: &[u8], proof_valid: bool) -> (r:
        Result<SettleReceipt, RoundError>)
        requires
            old(self).wf(),
        ensures
            final(self).wf(),
            final(self).same_setup(old(self)),
            final(self).round_counter() == old(self).round_counter(),
            final(self).session_id() == old(self).session_id(),
            final(self).bet() == old(self).bet(),
            match r {
                Ok(receipt) => {
                    &&& reveal_refusal(
                        old(self).round(),
                        old(self).bet(),
                        cranker,
                        seed_cranker@,
                        proof@,
                        proof_valid,
                    ) is None
                    &&& receipt.outcome == outcome_of(seed_cranker@, old(self).bet().unwrap().seed_player@)
                    &&& receipt.settlement@ == settlement(
                        receipt.outcome as int,
                        old(self).bet().unwrap().bet_type,
                        old(self).bet().unwrap().amount as int,
                    )
                    &&& receipt == settle_receipt(
                        old(self).round().unwrap(),
                        old(self).bet().unwrap(),
                        old(self).pool(),
                        old(self).session_id(),
                        receipt.outcome,
                        receipt.settlement,
                    )
                    &&& final(self).round() == Some(
                        Round { status: RoundStatus::Settled, result: receipt.outcome, ..old(self).round().unwrap() },
                    )
                },
                Err(e) => {
                    &&& reveal_refusal(
                        old(self).round(),
                        old(self).bet(),
                        cranker,
                        seed_cranker@,
                        proof@,
                        proof_valid,
                    ) == Some(e)
                    &&& *final(self) == *old(self)
                },
            },
    {
        match self.check_reveal(&cranker, &seed_cranker, proof) {
            Err(e) => { return Err(e); },
            Ok(_) => {},
        }
        if !proof_valid {
            return Err(RoundError::InvalidProof);
        }
        let (mut round, bet): (Round, StoredBet) = match (self.round, self.bet) {
            (Some(r), Some(b)) => (r, b),
            // a reveal that passed the look above has a round and a bet
            _ => { return Err(RoundError::NoActiveRound); },
        };
        let outcome: u32 = compute_result(&seed_cranker, &bet.seed_player);
        let settlement: SettlementResult = compute_settlement(outcome, &bet.bet_type, bet.amount);
        let receipt = SettleReceipt {
            round_id: round.id,
            outcome,
            settlement,
            stake: if settlement.player_won {
                Payment { to: bet.player, amount: bet.amount }
            } else {
                Payment { to: self.pool, amount: settlement.pool_absorb }
            },
            pool_order: if settlement.player_won {
                PoolOrder::Payout { winner: bet.player, amount: settlement.payout }
            } else {
                PoolOrder::Absorb { amount: settlement.pool_absorb }
            },
            fee: if !settlement.player_won && settlement.cranker_fee > 0 {
                Some(Payment { to: round.cranker, amount: settlement.cranker_fee })
            } else {
                None
            },
            bond: Payment { to: round.cranker, amount: round.bond },
            notice: EndNotice {
                session_id: self.hub_session_id,
                player1_won: settlement.player_won,
                timed_out: false,
                bet_amount: bet.amount,
                result: outcome,
            },
        };
        round.result = outcome;
        round.status = RoundStatus::Settled;
        self.round = Some(round);
        Ok(receipt)
    }

    /// The cranker reveals its seed with a proof, and the round is settled if
    /// the proof is for this round and this seed and the verifier accepts it.
    pub fn reveal_and_settle(
        &mut self,
        verifier: &VerifierContract,
        cranker: Identity,
        seed_cranker: [u8; 32],
        proof: &[u8],
    ) -> (r: Result<SettleReceipt, RoundError>)
        requires
            old(self).wf(),
        ensures
            final(self).wf(),
            final(self).same_setup(old(self)),
            final(self).round_counter() == old(self).round_counter(),
            final(self).session_id() == old(self).session_id(),
            final(self).bet() == old(self).bet(),
            match r {
                Ok(receipt) => {
                    &&& reveal_refusal(
                        old(self).round(),
                        old(self).bet(),
                        cranker,
                        seed_cranker@,
                        proof@,
                        blob_verdict(verifier.keys(), proof@) == Ok::<bool, VerifyError>(true),
                    ) is None
                    &&& receipt.outcome == outcome_of(seed_cranker@, old(self).bet().unwrap().seed_player@)
                    &&& receipt.settlement@ == settlement(
                        receipt.outcome as int,
                        old(self).bet().unwrap().bet_type,
                        old(self).bet().unwrap().amount as int,
                    )
                    &&& receipt == settle_receipt(
                        old(self).round().unwrap(),
                        old(self).bet().unwrap(),
                        old(self).pool(),
                        old(self).session_id(),
                        receipt.outcome,
                        receipt.settlement,
                    )
                    &&& final(self).round() == Some(
                        Round { status: RoundStatus::Settled, result: receipt.outcome, ..old(self).round().unwrap() },
                    )
                },
                Err(e) => {
                    &&& reveal_refusal(
                        old(self).round(),
                        old(self).bet(),
                        cranker,
                        seed_cranker@,
                        proof@,
                        blob_verdict(verifier.keys(), proof@) == Ok::<bool, VerifyError>(true),
                    ) == Some(e)
                    &&& *final(self) == *old(self)
                },
            },
    {
        match self.check_reveal(&cranker, &seed_cranker, proof) {
            Err(e) => { return Err(e); },
            Ok(_) => {},
        }
        let proof_valid: bool = match verifier.verify(proof) {
            Ok(accepted) => accepted,
            Err(_) => false,
        };
        self.settle_round(cranker, seed_cranker, proof, proof_valid)
    }

    /// The player takes stake and bond once the cranker has let the window
    /// for the reveal pass.
    pub fn claim_timeout(&mut self, player: Identity, current_ledger: u32) -> (r: Result<
        TimeoutReceipt,
        RoundError,
    >)
        requires
            old(self).wf(),
        ensures
            final(self).wf(),
            final(self).same_setup(old(self)),
            final(self).round_counter() == old(self).round_counter(),
            final(self).session_id() == old(self).session_id(),
            final(self).bet() == old(self).bet(),
            match r {
                Ok(receipt) => {
                    &&& timeout_refusal(old(self).round(), old(self).bet(), player, current_ledger) is None
                    &&& old(self).bet() is Some
                    &&& receipt == timeout_receipt(
                        old(self).round().unwrap(),
                        old(self).bet().unwrap(),
                        old(self).session_id(),
                    )
                    &&& final(self).round() == Some(
                        Round { status: RoundStatus::TimedOut, ..old(self).round().unwrap() },
                    )
                },
                Err(e) => {
                    &&& timeout_refusal(old(self).round(), old(self).bet(), player, current_ledger) == Some(e)
                    &&& *final(self) == *old(self)
                },
            },
    {
        let mut round: Round = match self.round {
            Some(r) => r,
            None => { return Err(RoundError::NoActiveRound); },
        };
        if round.status != RoundStatus::BetPlaced {
            return Err(RoundError::BetNotPlaced);
        }
        let bet: StoredBet = match self.bet {
            Some(b) => b,
            // a round that has got past `Open` has a bet
            None => { return Err(RoundError::BetNotPlaced); },
        };
        if !bet.player.same_as(&player) {
            return Err(RoundError::NotThePlayer);
        }
        if current_ledger as u64 <= round.commit_ledger as u64 + TIMEOUT_LEDGERS as u64 {
            return Err(RoundError::TimeoutNotReached);
        }
        let receipt = TimeoutReceipt {
            round_id: round.id,
            stake: Payment { to: player, amount: bet.amount },
            bond: Payment { to: player, amount: round.bond },
            notice: EndNotice {
                session_id: self.hub_session_id,
                player1_won: true,
                timed_out: true,
                bet_amount: bet.amount,
                result: NO_OUTCOME,
            },
        };
        round.status = RoundStatus::TimedOut;
        self.round = Some(round);
        Ok(receipt)
    }
}

/// Settling a round empties the escrow and takes nothing more: stake and bond
/// went in, and what is paid out of it, to player or pool, to the cranker as
/// fee and as bond, adds up to stake and bond, whoever wins.
pub proof fn settling_empties_the_escrow(
    round: Round,
    bet: StoredBet,
    pool: Identity,
    session_id: u32,
    outcome: u32,
    settled: SettlementResult,
)
    requires
        bet.amount > 0,
        settled@ == settlement(outcome as int, bet.bet_type, bet.amount as int),
    ensures
        paid_from_escrow(settle_receipt(round, bet, pool, session_id, outcome, settled)) == bet.amount
            + round.bond,
{
}

/// A timeout empties the escrow too: the player is handed stake and bond.
pub proof fn a_timeout_empties_the_escrow(round: Round, bet: StoredBet, session_id: u32)
    ensures
        timeout_receipt(round, bet, session_id).stake.amount + timeout_receipt(round, bet, session_id).bond.amount
            == bet.amount + round.bond,
        timeout_receipt(round, bet, session_id).stake.to == bet.player,
        timeout_receipt(round, bet, session_id).bond.to == bet.player,
{
}

/// A round gives way to a new one unless a bet is in escrow: the first round,
/// a round nobody bet on and a round that has ended are all replaced, given a
/// sufficient bond and room in the counters.
pub proof fn a_round_gives_way_unless_a_bet_is_in_escrow(
    round: Option<Round>,
    round_counter: u64,
    session_id: u32,
    bond: i128,
)
    requires
        bond >= MIN_BOND,
        round_counter < u64::MAX,
        session_id < u32::MAX,
    ensures
        commit_refusal(round, round_counter, session_id, bond) is None <==> (round matches Some(r) ==> r.status
            == RoundStatus::Open || terminal(r.status)),
        commit_refusal(round, round_counter, session_id, bond) is Some ==> commit_refusal(
            round,
            round_counter,
            session_id,
            bond,
        ) == Some(RoundError::RoundInProgress),
{
}

/// A bet is taken by an open round and by no other: not before a round is
/// opened, not once it has a bet, not after it has ended.
pub proof fn a_bet_needs_an_open_round(
    round: Option<Round>,
    player: Identity,
    bet_type: BetType,
    amount: i128,
    max_bet: i128,
    pool_balance: i128,
)
    requires
        !(round matches Some(r) && r.status == RoundStatus::Open),
    ensures
        bet_refusal(round, player, bet_type, amount, max_bet, pool_balance) is Some,
{
}

/// A round is settled only while its bet awaits the reveal, only for its own
/// cranker, only on a proof that is for this round and this seed, and only if
/// that proof was accepted.
pub proof fn a_reveal_needs_a_bet_and_a_valid_proof(
    round: Option<Round>,
    bet: Option<StoredBet>,
    cranker: Identity,
    seed_cranker: Seq<u8>,
    proof: Seq<u8>,
    proof_valid: bool,
)
    ensures
        reveal_refusal(round, bet, cranker, seed_cranker, proof, proof_valid) is None <==> proof_valid && (round
            matches Some(r) && bet matches Some(b) && r.status == RoundStatus::BetPlaced && r.cranker == cranker
            && bound_to(proof, r, b, seed_cranker)),
{
}

/// A proof for another commitment, for another seed of the cranker or of the
/// player, or for another outcome settles nothing, whatever the verifier says
/// of it.
pub proof fn a_proof_for_another_round_settles_nothing(
    round: Round,
    bet: StoredBet,
    cranker: Identity,
    seed_cranker: Seq<u8>,
    proof: Seq<u8>,
    proof_valid: bool,
)
    requires
        proof.len() == BLOB_BYTES,
        blob_inputs(proof)[0] != round.commit@ || blob_inputs(proof)[1] != seed_cranker || blob_inputs(proof)[2]
            != bet.seed_player@ || blob_inputs(proof)[3] != be_bytes(
            outcome_of(seed_cranker, bet.seed_player@),
            32,
        ),
    ensures
        reveal_refusal(Some(round), Some(bet), cranker, seed_cranker, proof, proof_valid) is Some,
{
}

/// The outcome does not depend on which seed is whose, and is a pocket of the
/// wheel.
pub proof fn the_outcome_is_a_pocket_whichever_way_round(seed_cranker: Seq<u8>, seed_player: Seq<u8>)
    ensures
        outcome_of(seed_cranker, seed_player) == outcome_of(seed_player, seed_cranker),
        outcome_of(seed_cranker, seed_player) <= 36,
{
}

/// The player of a round that awaits its reveal can claim the timeout once
/// the ledger is past the commitment by more than the window, and not at that
/// ledger or before.
pub proof fn a_timeout_opens_after_the_window(round: Round, bet: StoredBet, current_ledger: u32)
    requires
        round.status == RoundStatus::BetPlaced,
    ensures
        timeout_refusal(Some(round), Some(bet), bet.player, current_ledger) is None <==> current_ledger
            > round.commit_ledger + TIMEOUT_LEDGERS,
{
}

/// A bet that is taken on the pool's own word is one the pool can pay: the
/// stake is within the pool's largest bet, and the balance covers what the
/// bet can win.
pub proof fn a_bet_that_is_taken_is_covered(
    round: Option<Round>,
    player: Identity,
    bet_type: BetType,
    amount: i128,
    max_bet: i128,
    pool_balance: i128,
)
    requires
        bet_refusal(round, player, bet_type, amount, max_bet, pool_balance) is None,
    ensures
        0 < amount <= max_bet,
        valid_bet(bet_type),
        amount <= net_winnings(bet_type, amount as int) <= pool_balance,
{
    assert((multiplier(bet_type) - 1) * amount >= amount) by (nonlinear_arith)
        requires
            multiplier(bet_type) - 1 >= 1,
            amount > 0,
    ;
}

} // verus!

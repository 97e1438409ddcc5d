use vstd::prelude::*;
use crate::constants::{
    BPS_DENOMINATOR, CRANKER_FEE_BPS, PAYOUT_DOZEN, PAYOUT_EVEN_MONEY, PAYOUT_STRAIGHT, RED_NUMBERS,
};
use crate::types::{BetType, Settlement, SettlementResult};

verus! {

/// The red pockets of the wheel.
pub open spec fn red_pockets() -> Set<int> {
    set![1, 3, 5, 7, 9, 12, 14, 16, 18, 19, 21, 23, 25, 27, 30, 32, 34, 36]
}

/// The black pockets: the numbered pockets that are not red.
pub open spec fn black_pockets() -> Set<int> {
    Set::new(|n: int| 1 <= n <= 36 && !red(n))
}

/// Whether pocket `n` is red.
pub open spec fn red(n: int) -> bool {
    red_pockets().contains(n)
}

/// Whether a bet of this type wins when the wheel stops on `outcome`.
pub open spec fn wins(outcome: int, bet: BetType) -> bool {
    match bet {
        BetType::Straight(n) => outcome == n,
        BetType::Red => outcome > 0 && red(outcome),
        BetType::Black => outcome > 0 && !red(outcome),
        BetType::Even => outcome > 0 && outcome % 2 == 0,
        BetType::Odd => outcome > 0 && outcome % 2 == 1,
        BetType::Low => 1 <= outcome <= 18,
        BetType::High => 19 <= outcome <= 36,
        BetType::Dozen(d) => 1 <= d <= 3 && 12 * (d - 1) < outcome <= 12 * d,
    }
}

/// What a winning bet of this type returns per unit staked, the stake itself
/// included.
pub open spec fn multiplier(bet: BetType) -> int {
    match bet {
        BetType::Straight(_) => 36,
        BetType::Dozen(_) => 3,
        _ => 2,
    }
}

/// What the pool pays on a win: the return less the stake, which comes back
/// from escrow.
pub open spec fn net_winnings(bet: BetType, stake: int) -> int {
    (multiplier(bet) - 1) * stake
}

/// The cranker's share of a lost stake, rounded down.
pub open spec fn cranker_fee(stake: int) -> int {
    stake * CRANKER_FEE_BPS as int / BPS_DENOMINATOR as int
}

/// What a stake on `bet` comes to when the wheel stops on `outcome`: on a win
/// the pool pays the net winnings and nothing else moves; on a loss the stake
/// is split between the cranker's fee and the pool.
pub open spec fn settlement(outcome: int, bet: BetType, stake: int) -> Settlement {
    if wins(outcome, bet) {
        Settlement { player_won: true, payout: net_winnings(bet, stake), pool_absorb: 0, cranker_fee: 0 }
    } else {
        Settlement {
            player_won: false,
            payout: 0,
            pool_absorb: stake - cranker_fee(stake),
            cranker_fee: cranker_fee(stake),
        }
    }
}

/// Whether a roulette number is red.
pub fn is_red(n: u32) -> (r: bool)
    ensures
        r == red(n as int),
{
    let mut i: usize = 0;
    while i < 18
        invariant
            i <= 18,
            forall|j: int| 0 <= j < i ==> RED_NUMBERS[j] != n,
        decreases 18 - i,
    {
        if RED_NUMBERS[i] == n {
            return true;
        }
        i += 1;
    }
    false
}

/// Whether a bet wins on `resultado`.
pub fn check_win(resultado: u32, bet_type: &BetType) -> (won: bool)
    ensures
        won == wins(resultado as int, *bet_type),
{
    match bet_type {
        BetType::Straight(n) => resultado == *n,
        BetType::Red => resultado > 0 && is_red(resultado),
        BetType::Black => resultado > 0 && !is_red(resultado),
        BetType::Even => resultado > 0 && resultado % 2 == 0,
        BetType::Odd => resultado > 0 && resultado % 2 == 1,
        BetType::Low => resultado >= 1 && resultado <= 18,
        BetType::High => resultado >= 19 && resultado <= 36,
        BetType::Dozen(d) => match *d {
            1 => resultado >= 1 && resultado <= 12,
            2 => resultado >= 13 && resultado <= 24,
            3 => resultado >= 25 && resultado <= 36,
            _ => false,
        },
    }
}

/// The total-return multiplier of a bet type.
pub fn get_multiplier(bet_type: &BetType) -> (m: i128)
    ensures
        m == multiplier(*bet_type),
{
    match bet_type {
        BetType::Straight(_) => PAYOUT_STRAIGHT,
        BetType::Red
        | BetType::Black
        | BetType::Even
        | BetType::Odd
        | BetType::Low
        | BetType::High => PAYOUT_EVEN_MONEY,
        BetType::Dozen(_) => PAYOUT_DOZEN,
    }
}

/// The most the pool can owe on a bet: its net winnings.
pub fn get_max_payout(bet_type: &BetType, amount: i128) -> (p: i128)
    requires
        i128::MIN <= net_winnings(*bet_type, amount as int) <= i128::MAX,
    ensures
        p == net_winnings(*bet_type, amount as int),
{
    let net: i128 = get_multiplier(bet_type) - 1;
    net * amount
}

/// Settles a bet of `amount` on `bet_type` against the outcome `resultado`.
///
/// A win costs the pool the net winnings and nothing else moves; a loss splits
/// the stake between the cranker's fee and the pool, with nothing left over.
pub fn compute_settlement(resultado: u32, bet_type: &BetType, amount: i128) -> (r: SettlementResult)
    requires
        wins(resultado as int, *bet_type) ==> i128::MIN <= net_winnings(*bet_type, amount as int)
            <= i128::MAX,
    ensures
        r@ == settlement(resultado as int, *bet_type, amount as int),
        r.player_won ==> r.payout == (multiplier(*bet_type) - 1) * amount,
        !r.player_won ==> r.cranker_fee + r.pool_absorb == amount,
{
    let won = check_win(resultado, bet_type);
    if won {
        let pool_payout: i128 = get_max_payout(bet_type, amount);
        SettlementResult { player_won: true, payout: pool_payout, pool_absorb: 0, cranker_fee: 0 }
    } else {
        let cranker_fee: i128 = fee_on(amount);
        let pool_amount: i128 = amount - cranker_fee;
        SettlementResult { player_won: false, payout: 0, pool_absorb: pool_amount, cranker_fee }
    }
}

/// The cranker's fee on a stake, computed without leaving `i128`.
fn fee_on(amount: i128) -> (fee: i128)
    ensures
        fee == cranker_fee(amount as int),
        amount >= 0 ==> 0 <= fee <= amount,
        amount < 0 ==> amount <= fee < 0,
{
    let den: i128 = BPS_DENOMINATOR as i128;
    let bps: i128 = CRANKER_FEE_BPS as i128;
    if amount >= 0 {
        let whole: i128 = amount / den;
        let rest: i128 = amount % den;
        whole * bps + rest * bps / den
    } else {
        // floor(amount * bps / den) == -ceil(-amount * bps / den); one more than
        // i128::MIN keeps the negation in range.
        let up: i128 = -(amount + 1);
        let whole: i128 = up / den;
        let rest: i128 = up % den;
        -(whole * bps + rest * bps / den) - 1
    }
}

/// No settlement makes or loses value: a lost stake is split between cranker
/// and pool to the last unit, neither part negative, and a win pays the
/// multiplier less one times the stake, neither more nor less.
pub proof fn a_settlement_moves_the_stake_exactly(outcome: int, bet: BetType, stake: int)
    ensures
        wins(outcome, bet) ==> settlement(outcome, bet, stake).payout == (multiplier(bet) - 1) * stake,
        !wins(outcome, bet) ==> settlement(outcome, bet, stake).cranker_fee + settlement(
            outcome,
            bet,
            stake,
        ).pool_absorb == stake,
        !wins(outcome, bet) && stake >= 0 ==> 0 <= settlement(outcome, bet, stake).cranker_fee <= stake && 0
            <= settlement(outcome, bet, stake).pool_absorb <= stake,
{
}

/// A positive stake never settles to an order for nothing: the net winnings
/// of a win and the pool's part of a loss are both positive.
pub proof fn a_settlement_orders_a_positive_amount(outcome: int, bet: BetType, stake: int)
    requires
        stake > 0,
    ensures
        wins(outcome, bet) ==> settlement(outcome, bet, stake).payout >= stake,
        !wins(outcome, bet) ==> settlement(outcome, bet, stake).pool_absorb > 0,
{
    assert((multiplier(bet) - 1) * stake >= stake) by (nonlinear_arith)
        requires
            multiplier(bet) - 1 >= 1,
            stake > 0,
    ;
}

/// The green pocket belongs to no outside bet: on outcome 0 every bet but a
/// straight one loses, whatever is staked.
pub proof fn zero_loses_every_outside_bet(bet: BetType)
    requires
        !(bet is Straight),
    ensures
        !wins(0, bet),
{
}

/// A straight bet wins on its own number and on no other.
pub proof fn straight_wins_on_its_number_only(n: u32, outcome: int)
    ensures
        wins(outcome, BetType::Straight(n)) <==> outcome == n,
{
}

/// Red and black split the pockets 1 to 36 into two halves of 18 with nothing
/// in common, and pocket 0 is in neither.
pub proof fn red_and_black_halve_the_wheel()
    ensures
        red_pockets().finite(),
        black_pockets().finite(),
        red_pockets().len() == 18,
        black_pockets().len() == 18,
        red_pockets().disjoint(black_pockets()),
        forall|n: int| 1 <= n <= 36 <==> red_pockets().contains(n) || black_pockets().contains(n),
        !red_pockets().contains(0),
        !black_pockets().contains(0),
{
    let blacks: Set<int> = set![2, 4, 6, 8, 10, 11, 13, 15, 17, 20, 22, 24, 26, 28, 29, 31, 33, 35];
    assert(black_pockets() =~= blacks);
    assert(red_pockets().len() == 18) by {
        count_eighteen(1, 3, 5, 7, 9, 12, 14, 16, 18, 19, 21, 23, 25, 27, 30, 32, 34, 36);
    }
    assert(blacks.len() == 18) by {
        count_eighteen(2, 4, 6, 8, 10, 11, 13, 15, 17, 20, 22, 24, 26, 28, 29, 31, 33, 35);
    }
}

/// Eighteen integers in strictly rising order make a set of eighteen.
proof fn count_eighteen(
    a0: int, a1: int, a2: int, a3: int, a4: int, a5: int, a6: int, a7: int, a8: int,
    a9: int, a10: int, a11: int, a12: int, a13: int, a14: int, a15: int, a16: int, a17: int,
)
    requires
        a0 < a1 < a2 < a3 < a4 < a5 < a6 < a7 < a8 < a9 < a10 < a11 < a12 < a13 < a14 < a15 < a16 < a17,
    ensures
        set![a0, a1, a2, a3, a4, a5, a6, a7, a8, a9, a10, a11, a12, a13, a14, a15, a16, a17].len() == 18,
        set![a0, a1, a2, a3, a4, a5, a6, a7, a8, a9, a10, a11, a12, a13, a14, a15, a16, a17].finite(),
{
    let s0: Set<int> = Set::empty().insert(a0);
    let s1 = s0.insert(a1);
    let s2 = s1.insert(a2);
    let s3 = s2.insert(a3);
    let s4 = s3.insert(a4);
    let s5 = s4.insert(a5);
    let s6 = s5.insert(a6);
    let s7 = s6.insert(a7);
    let s8 = s7.insert(a8);
    let s9 = s8.insert(a9);
    let s10 = s9.insert(a10);
    let s11 = s10.insert(a11);
    let s12 = s11.insert(a12);
    let s13 = s12.insert(a13);
    let s14 = s13.insert(a14);
    let s15 = s14.insert(a15);
    let s16 = s15.insert(a16);
    let s17 = s16.insert(a17);
    assert(s0.len() == 1);
    assert(s1.len() == 2);
    assert(s2.len() == 3);
    assert(s3.len() == 4);
    assert(s4.len() == 5);
    assert(s5.len() == 6);
    assert(s6.len() == 7);
    assert(s7.len() == 8);
    assert(s8.len() == 9);
    assert(s9.len() == 10);
    assert(s10.len() == 11);
    assert(s11.len() == 12);
    assert(s12.len() == 13);
    assert(s13.len() == 14);
    assert(s14.len() == 15);
    assert(s15.len() == 16);
    assert(s16.len() == 17);
    assert(s17.len() == 18);
    assert(s17 =~= set![a0, a1, a2, a3, a4, a5, a6, a7, a8, a9, a10, a11, a12, a13, a14, a15, a16, a17]);
}

} // verus!

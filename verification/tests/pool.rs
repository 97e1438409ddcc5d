use zk_roulette::pool::{LpAccount, PoolContract, PoolError};
use zk_roulette::ratio::mul_div;
use zk_roulette::types::{Identity, IdentityKind, Payment};

fn account(n: u8) -> Identity {
    Identity { kind: IdentityKind::Account, key: [n; 32] }
}

fn contract(n: u8) -> Identity {
    Identity { kind: IdentityKind::Contract, key: [n; 32] }
}

struct TestEnv {
    admin: Identity,
    roulette: Identity,
    pool: PoolContract,
}

fn setup_env() -> TestEnv {
    let admin = account(1);
    let token = contract(2);
    let roulette = contract(3);
    let mut pool = PoolContract::new(admin, token);
    pool.set_roulette(&admin, roulette).unwrap();
    TestEnv { admin, roulette, pool }
}

#[test]
fn test_first_deposit_1_to_1() {
    let mut t = setup_env();

    t.pool.deposit(t.admin, 1_000_000_000).unwrap();

    assert_eq!(t.pool.get_pool_balance(), 1_000_000_000);
    assert_eq!(t.pool.get_total_shares(), 1_000_000_000);
    assert_eq!(t.pool.get_lp_shares(&t.admin), 1_000_000_000);
}

#[test]
fn test_proportional_deposit() {
    let mut t = setup_env();

    t.pool.deposit(t.admin, 1_000).unwrap();
    assert_eq!(t.pool.get_total_shares(), 1_000);

    t.pool.deposit(t.admin, 500).unwrap();
    assert_eq!(t.pool.get_total_shares(), 1_500);
    assert_eq!(t.pool.get_pool_balance(), 1_500);
    assert_eq!(t.pool.get_lp_shares(&t.admin), 1_500);
}

#[test]
fn test_withdraw() {
    let mut t = setup_env();

    t.pool.deposit(t.admin, 1_000_000).unwrap();

    t.pool.withdraw(t.admin, 500_000).unwrap();
    assert_eq!(t.pool.get_pool_balance(), 500_000);
    assert_eq!(t.pool.get_total_shares(), 500_000);
    assert_eq!(t.pool.get_lp_shares(&t.admin), 500_000);
}

#[test]
fn test_absorb_increases_share_price() {
    let mut t = setup_env();

    t.pool.deposit(t.admin, 1_000_000).unwrap();

    t.pool.absorb(&t.roulette, 100_000).unwrap();

    assert_eq!(t.pool.get_pool_balance(), 1_100_000);
    assert_eq!(t.pool.get_total_shares(), 1_000_000);
    assert_eq!(t.pool.get_share_price(), Ok(11_000_000));
}

#[test]
fn test_withdraw_after_absorb_gets_more() {
    let mut t = setup_env();

    t.pool.deposit(t.admin, 1_000_000).unwrap();

    t.pool.absorb(&t.roulette, 200_000).unwrap();

    // Withdraw all shares: should get 1_200_000
    let paid = t.pool.withdraw(t.admin, 1_000_000).unwrap();
    assert_eq!(paid, Payment { to: t.admin, amount: 1_200_000 });
    assert_eq!(t.pool.get_pool_balance(), 0);
    assert_eq!(t.pool.get_total_shares(), 0);
}

#[test]
fn test_max_bet() {
    let mut t = setup_env();

    t.pool.deposit(t.admin, 10_000_000).unwrap();

    // Max bet = 2% of pool = 200_000
    assert_eq!(t.pool.get_max_bet(), 200_000);
}

#[test]
fn test_deposit_zero_fails() {
    let mut t = setup_env();
    assert_eq!(t.pool.deposit(t.admin, 0), Err(PoolError::AmountNotPositive));
}

#[test]
fn test_withdraw_too_many_shares_fails() {
    let mut t = setup_env();
    t.pool.deposit(t.admin, 1_000).unwrap();
    assert_eq!(t.pool.withdraw(t.admin, 2_000), Err(PoolError::InsufficientShares));
}

#[test]
fn a_fresh_pool_is_empty_and_priceless() {
    let pool = PoolContract::new(account(1), contract(2));
    assert_eq!(pool.get_pool_balance(), 0);
    assert_eq!(pool.get_total_shares(), 0);
    assert_eq!(pool.get_lp_shares(&account(1)), 0);
    assert_eq!(pool.get_max_bet(), 0);
    assert_eq!(pool.get_share_price(), Ok(0));
}

#[test]
fn the_first_deposit_prices_a_share_at_the_precision() {
    for x in [1i128, 7, 1_000, 999_999_999_999] {
        let mut t = setup_env();
        assert_eq!(t.pool.deposit(t.admin, x), Ok(x));
        assert_eq!(t.pool.get_share_price(), Ok(10_000_000));
    }
}

#[test]
fn a_later_deposit_mints_in_proportion_rounded_down() {
    let mut t = setup_env();
    let other = account(7);
    t.pool.deposit(t.admin, 1_000).unwrap();
    t.pool.absorb(&t.roulette, 500).unwrap();
    // balance 1500, shares 1000: 100 * 1000 / 1500 = 66.67
    assert_eq!(t.pool.deposit(other, 100), Ok(66));
    assert_eq!(t.pool.get_pool_balance(), 1_600);
    assert_eq!(t.pool.get_total_shares(), 1_066);
    assert_eq!(t.pool.get_lp_shares(&other), 66);
    assert_eq!(t.pool.get_lp_shares(&t.admin), 1_000);
}

#[test]
fn a_deposit_that_mints_nothing_is_refused() {
    let mut t = setup_env();
    t.pool.deposit(t.admin, 1_000).unwrap();
    t.pool.absorb(&t.roulette, 1_000).unwrap();
    // balance 2000, shares 1000: 1 * 1000 / 2000 = 0
    assert_eq!(t.pool.deposit(account(7), 1), Err(PoolError::DepositTooSmall));
    assert_eq!(t.pool.get_pool_balance(), 2_000);
    assert_eq!(t.pool.get_total_shares(), 1_000);
    assert_eq!(t.pool.get_lp_shares(&account(7)), 0);
    assert_eq!(t.pool.deposit(account(7), 2), Ok(1));
}

#[test]
fn a_negative_deposit_is_refused() {
    let mut t = setup_env();
    assert_eq!(t.pool.deposit(t.admin, -5), Err(PoolError::AmountNotPositive));
    assert_eq!(t.pool.get_pool_balance(), 0);
}

#[test]
fn a_deposit_that_does_not_fit_is_refused() {
    let mut t = setup_env();
    t.pool.deposit(t.admin, i128::MAX).unwrap();
    assert_eq!(t.pool.deposit(t.admin, 2), Err(PoolError::Overflow));
    let mut t = setup_env();
    t.pool.deposit(t.admin, i128::MAX - 1).unwrap();
    // the product fits, the new balance does not
    assert_eq!(t.pool.deposit(t.admin, 1), Ok(1));
    assert_eq!(t.pool.deposit(t.admin, 1), Err(PoolError::Overflow));
    // a share is still worth one unit
    assert_eq!(t.pool.get_share_price(), Ok(10_000_000));
}

#[test]
fn a_deposit_is_minted_though_the_product_does_not_fit() {
    let big = 1i128 << 100;
    let lp = account(5);
    let all = LpAccount { lp, shares: big };
    let mut pool = PoolContract::restore(account(1), contract(2), None, 3 * big, big, vec![all]).unwrap();
    // 3 * 2^90 * 2^100 / (3 * 2^100)
    assert_eq!(pool.deposit(account(6), 3 << 90), Ok(1 << 90));
    assert_eq!(pool.get_pool_balance(), 3 * big + (3 << 90));
    assert_eq!(pool.get_total_shares(), big + (1 << 90));
    // more shares than there can be: 2^120 * 2^126 / 4
    let most = LpAccount { lp, shares: 1 << 126 };
    let mut pool = PoolContract::restore(account(1), contract(2), None, 4, 1 << 126, vec![most]).unwrap();
    assert_eq!(pool.deposit(account(6), 1 << 120), Err(PoolError::Overflow));
    assert_eq!(pool.get_pool_balance(), 4);
}

#[test]
fn a_price_that_does_not_fit_is_not_given() {
    let one = LpAccount { lp: account(5), shares: 1 };
    let pool = PoolContract::restore(account(1), contract(2), None, i128::MAX, 1, vec![one]).unwrap();
    assert_eq!(pool.get_share_price(), Err(PoolError::Overflow));
    let pool = PoolContract::restore(account(1), contract(2), None, i128::MAX / 10_000_000, 1, vec![one]).unwrap();
    assert_eq!(pool.get_share_price(), Ok(i128::MAX / 10_000_000 * 10_000_000));
    let pool = PoolContract::restore(account(1), contract(2), None, i128::MAX / 10_000_000 + 1, 1, vec![one]).unwrap();
    assert_eq!(pool.get_share_price(), Err(PoolError::Overflow));
}

#[test]
fn shares_without_a_balance_take_no_deposit() {
    let mut t = setup_env();
    t.pool.deposit(t.admin, 1_000).unwrap();
    t.pool.payout(&t.roulette, account(9), 1_000).unwrap();
    assert_eq!(t.pool.get_pool_balance(), 0);
    assert_eq!(t.pool.get_total_shares(), 1_000);
    assert_eq!(t.pool.deposit(account(7), 50), Err(PoolError::PoolDrained));
    assert_eq!(t.pool.withdraw(t.admin, 1_000), Err(PoolError::WithdrawTooSmall));
}

#[test]
fn withdrawing_pays_the_shares_part_rounded_down() {
    let mut t = setup_env();
    let other = account(7);
    t.pool.deposit(t.admin, 1_000).unwrap();
    t.pool.deposit(other, 500).unwrap();
    t.pool.absorb(&t.roulette, 100).unwrap();
    // balance 1600, shares 1500: 7 * 1600 / 1500 = 7.47
    assert_eq!(t.pool.withdraw(other, 7), Ok(Payment { to: other, amount: 7 }));
    assert_eq!(t.pool.get_pool_balance(), 1_593);
    assert_eq!(t.pool.get_total_shares(), 1_493);
    assert_eq!(t.pool.get_lp_shares(&other), 493);
    assert_eq!(t.pool.get_lp_shares(&t.admin), 1_000);
    // 493 * 1593 / 1493 = 526.02
    assert_eq!(t.pool.withdraw(other, 493), Ok(Payment { to: other, amount: 526 }));
    assert_eq!(t.pool.get_lp_shares(&other), 0);
    assert_eq!(t.pool.withdraw(other, 1), Err(PoolError::InsufficientShares));
}

#[test]
fn withdrawing_nothing_is_refused() {
    let mut t = setup_env();
    t.pool.deposit(t.admin, 1_000).unwrap();
    assert_eq!(t.pool.withdraw(t.admin, 0), Err(PoolError::SharesNotPositive));
    assert_eq!(t.pool.withdraw(t.admin, -1), Err(PoolError::SharesNotPositive));
    assert_eq!(t.pool.withdraw(account(7), 1), Err(PoolError::InsufficientShares));
}

#[test]
fn shares_worth_nothing_cannot_be_cashed() {
    let mut t = setup_env();
    t.pool.deposit(t.admin, 1_000).unwrap();
    t.pool.payout(&t.roulette, account(9), 999).unwrap();
    // 1 unit for 1000 shares: 999 shares are worth 0.999
    assert_eq!(t.pool.withdraw(t.admin, 999), Err(PoolError::WithdrawTooSmall));
    assert_eq!(t.pool.withdraw(t.admin, 1_000), Ok(Payment { to: t.admin, amount: 1 }));
}

#[test]
fn the_sole_provider_takes_what_was_absorbed() {
    for (b, a) in [(1i128, 1i128), (1_000, 0), (1_000_000, 200_000), (3, 1_000_000_000)] {
        let mut t = setup_env();
        t.pool.deposit(t.admin, b).unwrap();
        if a > 0 {
            t.pool.absorb(&t.roulette, a).unwrap();
        }
        assert_eq!(t.pool.withdraw(t.admin, b), Ok(Payment { to: t.admin, amount: b + a }));
        assert_eq!(t.pool.get_pool_balance(), 0);
        assert_eq!(t.pool.get_total_shares(), 0);
    }
}

#[test]
fn only_the_engine_pays_out_and_absorbs() {
    let mut t = setup_env();
    t.pool.deposit(t.admin, 1_000).unwrap();
    assert_eq!(t.pool.payout(&t.admin, account(9), 10), Err(PoolError::Unauthorized));
    assert_eq!(t.pool.absorb(&account(9), 10), Err(PoolError::Unauthorized));
    // the same key as another kind of party is another party
    let twin = Identity { kind: IdentityKind::Account, key: t.roulette.key };
    assert_eq!(t.pool.absorb(&twin, 10), Err(PoolError::Unauthorized));
    assert_eq!(t.pool.get_pool_balance(), 1_000);
    let mut unset = PoolContract::new(account(1), contract(2));
    assert_eq!(unset.absorb(&contract(3), 10), Err(PoolError::Unauthorized));
}

#[test]
fn a_payout_needs_an_amount_the_pool_holds() {
    let mut t = setup_env();
    t.pool.deposit(t.admin, 1_000).unwrap();
    assert_eq!(t.pool.payout(&t.roulette, account(9), 0), Err(PoolError::AmountNotPositive));
    assert_eq!(t.pool.payout(&t.roulette, account(9), 1_001), Err(PoolError::InsufficientBalance));
    assert_eq!(t.pool.payout(&t.roulette, account(9), 400), Ok(Payment { to: account(9), amount: 400 }));
    assert_eq!(t.pool.get_pool_balance(), 600);
    assert_eq!(t.pool.get_total_shares(), 1_000);
    assert_eq!(t.pool.get_share_price(), Ok(6_000_000));
}

#[test]
fn absorbing_needs_an_amount_that_fits() {
    let mut t = setup_env();
    assert_eq!(t.pool.absorb(&t.roulette, 0), Err(PoolError::AmountNotPositive));
    assert_eq!(t.pool.absorb(&t.roulette, -3), Err(PoolError::AmountNotPositive));
    t.pool.absorb(&t.roulette, i128::MAX).unwrap();
    assert_eq!(t.pool.absorb(&t.roulette, 1), Err(PoolError::Overflow));
    // funds without shares: the next deposit is still one to one
    assert_eq!(t.pool.get_share_price(), Ok(0));
}

#[test]
fn the_engine_is_named_once_by_the_admin() {
    let admin = account(1);
    let mut pool = PoolContract::new(admin, contract(2));
    assert_eq!(pool.set_roulette(&account(5), contract(3)), Err(PoolError::Unauthorized));
    assert_eq!(pool.set_roulette(&admin, contract(3)), Ok(()));
    assert_eq!(pool.set_roulette(&admin, contract(4)), Err(PoolError::RouletteAlreadySet));
    assert_eq!(pool.absorb(&contract(4), 1), Err(PoolError::Unauthorized));
    assert_eq!(pool.absorb(&contract(3), 1), Ok(()));
}

#[test]
fn the_largest_bet_is_two_percent_rounded_down() {
    let mut t = setup_env();
    t.pool.deposit(t.admin, 49).unwrap();
    assert_eq!(t.pool.get_max_bet(), 0);
    t.pool.deposit(t.admin, 1).unwrap();
    assert_eq!(t.pool.get_max_bet(), 1);
    t.pool.deposit(t.admin, 12_345 - 50).unwrap();
    assert_eq!(t.pool.get_max_bet(), 246);
    t.pool.absorb(&t.roulette, i128::MAX - 12_345).unwrap();
    assert_eq!(t.pool.get_max_bet(), i128::MAX / 50);
}

#[test]
fn a_pool_is_restored_only_from_books_in_order() {
    let (admin, token, engine) = (account(1), contract(2), contract(3));
    let a = LpAccount { lp: account(5), shares: 700 };
    let b = LpAccount { lp: account(6), shares: 300 };
    let restore = |balance: i128, total: i128, accounts: Vec<LpAccount>| {
        PoolContract::restore(admin, token, Some(engine), balance, total, accounts)
    };
    let mut pool = restore(1_500, 1_000, vec![a, b]).unwrap();
    assert_eq!(pool.get_admin(), admin);
    assert_eq!(pool.get_token(), token);
    assert_eq!(pool.get_roulette(), Some(engine));
    assert_eq!(pool.get_pool_balance(), 1_500);
    assert_eq!(pool.get_total_shares(), 1_000);
    assert_eq!(pool.get_lp_shares(&account(5)), 700);
    assert_eq!(pool.get_lp_shares(&account(6)), 300);
    assert_eq!(pool.get_accounts(), vec![a, b]);
    // it goes on where it left off: 300 * 1500 / 1000
    assert_eq!(pool.withdraw(account(6), 300), Ok(Payment { to: account(6), amount: 450 }));
    assert_eq!(pool.get_accounts(), vec![a, LpAccount { lp: account(6), shares: 0 }]);

    assert!(restore(0, 0, vec![]).is_some());
    assert!(restore(5, 0, vec![]).is_some());
    assert!(restore(0, 1_000, vec![a, b]).is_some());
    // accounts that hold more than there is
    assert!(restore(1_500, 999, vec![a, b]).is_none());
    assert!(restore(1_500, 699, vec![a]).is_none());
    // some of the accounts: the others are not at hand
    assert!(restore(1_500, 1_000, vec![a]).is_some());
    assert!(restore(1_500, 1, vec![]).is_some());
    // a provider with two accounts
    assert!(restore(1_500, 1_400, vec![a, a]).is_none());
    assert!(restore(1_500, 1_700, vec![a, b, a]).is_none());
    // negative numbers
    assert!(restore(-1, 1_000, vec![a, b]).is_none());
    assert!(restore(1_500, -1, vec![]).is_none());
    let debt = LpAccount { lp: account(7), shares: -300 };
    assert!(restore(1_500, 700, vec![a, b, debt]).is_none());
    // shares beyond what a total can be
    let most = LpAccount { lp: account(8), shares: i128::MAX };
    assert!(restore(1_500, i128::MAX, vec![most]).is_some());
    assert!(restore(1_500, i128::MAX, vec![most, b]).is_none());
    assert!(restore(1_500, 299, vec![most, b]).is_none());
}

#[test]
fn a_pool_with_one_account_at_hand_serves_its_provider() {
    let (a, b) = (account(5), account(6));
    // 1_000 shares outstanding, 300 of them with `b`
    let mine = LpAccount { lp: b, shares: 300 };
    let mut pool = PoolContract::restore(account(1), contract(2), Some(contract(3)), 1_500, 1_000, vec![mine]).unwrap();
    assert_eq!(pool.get_lp_shares(&b), 300);
    assert_eq!(pool.withdraw(b, 301), Err(PoolError::InsufficientShares));
    assert_eq!(pool.withdraw(b, 100), Ok(Payment { to: b, amount: 150 }));
    assert_eq!(pool.get_lp_shares(&b), 200);
    assert_eq!(pool.get_total_shares(), 900);
    assert_eq!(pool.get_pool_balance(), 1_350);
    assert_eq!(pool.deposit(b, 30), Ok(20));
    assert_eq!(pool.get_lp_shares(&b), 220);
    assert_eq!(pool.get_total_shares(), 920);
    // a provider whose account is not at hand is one without shares
    assert_eq!(pool.get_lp_shares(&a), 0);
    assert_eq!(pool.withdraw(a, 1), Err(PoolError::InsufficientShares));
    assert_eq!(pool.get_accounts(), vec![LpAccount { lp: b, shares: 220 }]);
}

#[test]
fn a_restored_pool_without_an_engine_takes_one() {
    let mut pool = PoolContract::restore(account(1), contract(2), None, 10, 0, vec![]).unwrap();
    assert_eq!(pool.get_roulette(), None);
    assert_eq!(pool.set_roulette(&account(1), contract(3)), Ok(()));
    assert_eq!(pool.get_roulette(), Some(contract(3)));
}

#[test]
fn a_withdrawal_is_paid_though_the_product_does_not_fit() {
    let lp = account(5);
    let all = LpAccount { lp, shares: 10 };
    let mut pool = PoolContract::restore(account(1), contract(2), None, i128::MAX, 10, vec![all]).unwrap();
    assert_eq!(pool.withdraw(lp, 1), Ok(Payment { to: lp, amount: i128::MAX / 10 }));
    assert_eq!(pool.get_lp_shares(&lp), 9);
    let left = i128::MAX - i128::MAX / 10;
    assert_eq!(pool.withdraw(lp, 9), Ok(Payment { to: lp, amount: left }));
    assert_eq!(pool.get_pool_balance(), 0);
    assert_eq!(pool.get_total_shares(), 0);
}

#[test]
fn the_sole_provider_takes_everything_whatever_the_size() {
    let big = 1i128 << 100;
    let mut t = setup_env();
    t.pool.deposit(t.admin, big).unwrap();
    t.pool.absorb(&t.roulette, 12_345).unwrap();
    assert_eq!(t.pool.withdraw(t.admin, big), Ok(Payment { to: t.admin, amount: big + 12_345 }));
    assert_eq!(t.pool.get_pool_balance(), 0);
    assert_eq!(t.pool.get_total_shares(), 0);
    assert_eq!(t.pool.get_lp_shares(&t.admin), 0);

    let mut t = setup_env();
    t.pool.deposit(t.admin, i128::MAX - 1).unwrap();
    t.pool.absorb(&t.roulette, 1).unwrap();
    assert_eq!(t.pool.withdraw(t.admin, i128::MAX - 1), Ok(Payment { to: t.admin, amount: i128::MAX }));
    assert_eq!(t.pool.get_pool_balance(), 0);
}

#[test]
fn a_product_over_a_divisor_is_rounded_down() {
    assert_eq!(mul_div(0, 5, 3), Some(0));
    assert_eq!(mul_div(5, 0, 3), Some(0));
    assert_eq!(mul_div(7, 1600, 1500), Some(7));
    assert_eq!(mul_div(493, 1593, 1493), Some(526));
    assert_eq!(mul_div(1, 1, 2), Some(0));
    assert_eq!(mul_div(1, 1, 1), Some(1));
    let mut state = 0x2545_f491_4f6c_dd1du64;
    let mut next = || {
        state ^= state << 13;
        state ^= state >> 7;
        state ^= state << 17;
        state as i128
    };
    for _ in 0..2_000 {
        // 63 bits each: the product fits
        let (a, b, c) = (next() >> 1, next() >> 1, (next() >> 1) + 1);
        assert_eq!(mul_div(a, b, c), Some(a * b / c));
        let small = c % 1_000 + 1;
        assert_eq!(mul_div(a, b, small), Some(a * b / small));
    }
}

#[test]
fn a_product_that_does_not_fit_has_a_quotient_that_may() {
    let max = i128::MAX;
    assert_eq!(mul_div(max, max, max), Some(max));
    assert_eq!(mul_div(max, max - 1, max), Some(max - 1));
    assert_eq!(mul_div(max - 1, max, max), Some(max - 1));
    assert_eq!(mul_div(max, 1, 1), Some(max));
    assert_eq!(mul_div(max, 2, 1), None);
    assert_eq!(mul_div(max, 2, 2), Some(max));
    assert_eq!(mul_div(max, 2, 3), Some(max / 3 * 2));
    assert_eq!(mul_div(max - 1, 2, 3), Some(max / 3 * 2));
    assert_eq!(mul_div(max, 4, 3), None);
    assert_eq!(mul_div(max / 4, 4, 3), Some(max / 4 * 4 / 3));
    assert_eq!(mul_div(max, max, max - 1), None);
    assert_eq!(mul_div(max / 2 + 1, 2, 1), None);
    assert_eq!(mul_div(max / 2, 2, 1), Some(max - 1));
    // (k * c + r) * (m * c) / c == (k * c + r) * m
    let c = (1i128 << 90) + 12_345;
    for (k, r, m) in [(1i128, 0i128, 1i128), (3, 77, 5), (1 << 20, c - 1, 1 << 15), (0, c - 1, 1 << 36)] {
        let a = k * c + r;
        assert_eq!(mul_div(a, m * c, c), Some(a * m));
        assert_eq!(mul_div(m * c, a, c), Some(a * m));
    }
    // a full part of a balance is the balance, and a lesser part is less
    let b = max - 999;
    assert_eq!(mul_div(c, b, c), Some(b));
    assert_eq!(mul_div(c - 1, b, c), Some(b - b / c - 1));
}

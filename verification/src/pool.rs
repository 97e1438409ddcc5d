//! The liquidity pool: providers hold shares of one balance, which grows when
//! a bet is lost and shrinks when one is won.

use crate::constants::{BPS_DENOMINATOR, MAX_BET_RATIO_BPS, SHARE_PRICE_PRECISION};
use crate::ratio::mul_div;
use crate::types::{Identity, Payment};
use vstd::prelude::*;

verus! {

/// Why the pool refused an operation.
#[derive(Clone, Copy, Debug, PartialEq, Eq, Structural)]
pub enum PoolError {
    /// The caller is not who may do this.
    Unauthorized,
    /// The round engine has already been named.
    RouletteAlreadySet,
    /// An amount of zero or less.
    AmountNotPositive,
    /// A number of shares of zero or less.
    SharesNotPositive,
    /// The deposit would mint no share.
    DepositTooSmall,
    /// The provider holds fewer shares than it wants to burn.
    InsufficientShares,
    /// The shares would pay out nothing.
    WithdrawTooSmall,
    /// The pool holds less than it is asked to pay.
    InsufficientBalance,
    /// Shares are outstanding but the balance is gone, so a share has no price.
    PoolDrained,
    /// A balance, a number of shares or a price would not fit the amount
    /// type.
    Overflow,
}

/// The shares one provider holds.
#[derive(Clone, Copy, Debug, PartialEq, Eq)]
pub struct LpAccount {
    pub lp: Identity,
    pub shares: i128,
}

/// The state of the pool.
pub struct PoolContract {
    admin: Identity,
    token: Identity,
    roulette: Option<Identity>,
    pool_balance: i128,
    total_shares: i128,
    accounts: Vec<LpAccount>,
}

/// The shares a deposit mints: one per unit into a pool without shares, else
/// in proportion to the balance, rounded down.
pub open spec fn shares_minted(balance: int, total_shares: int, amount: int) -> int {
    if total_shares == 0 {
        amount
    } else {
        amount * total_shares / balance
    }
}

/// What burning `shares` pays: their part of the balance, rounded down.
pub open spec fn withdrawal_value(balance: int, total_shares: int, shares: int) -> int {
    shares * balance / total_shares
}

/// The largest single bet: a fixed fraction of the balance, rounded down.
pub open spec fn max_bet(balance: int) -> int {
    balance * MAX_BET_RATIO_BPS as int / BPS_DENOMINATOR as int
}

/// The price of one share, scaled; 0 while there are no shares.
pub open spec fn share_price(balance: int, total_shares: int) -> int {
    if total_shares == 0 {
        0
    } else {
        balance * SHARE_PRICE_PRECISION as int / total_shares
    }
}

/// Whether a balance and a number of shares go together: both are nothing, or
/// neither is. Only then does a share have a price and a deposit a rate.
pub open spec fn in_step(balance: int, total_shares: int) -> bool {
    balance == 0 <==> total_shares == 0
}

/// What a deposit of `amount` comes to in a pool with this balance and these
/// shares: the shares it mints, or why it is refused.
pub open spec fn deposit_outcome(balance: int, total_shares: int, amount: int) -> Result<int, PoolError> {
    let minted: int = shares_minted(balance, total_shares, amount);
    if amount <= 0 {
        Err(PoolError::AmountNotPositive)
    } else if total_shares != 0 && balance == 0 {
        Err(PoolError::PoolDrained)
    } else if minted <= 0 {
        Err(PoolError::DepositTooSmall)
    } else if balance + amount > i128::MAX || total_shares + minted > i128::MAX {
        Err(PoolError::Overflow)
    } else {
        Ok(minted)
    }
}

/// What burning `shares` out of `held` comes to: the amount paid, or why it
/// is refused.
pub open spec fn withdraw_outcome(balance: int, total_shares: int, held: int, shares: int) -> Result<
    int,
    PoolError,
> {
    if shares <= 0 {
        Err(PoolError::SharesNotPositive)
    } else if shares > held {
        Err(PoolError::InsufficientShares)
    } else if withdrawal_value(balance, total_shares, shares) <= 0 {
        Err(PoolError::WithdrawTooSmall)
    } else {
        Ok(withdrawal_value(balance, total_shares, shares))
    }
}

/// The shares `lp` holds in a list of accounts.
pub open spec fn held_in(accounts: Seq<LpAccount>, lp: Identity) -> int
    decreases accounts.len(),
{
    if accounts.len() == 0 {
        0
    } else if accounts.last().lp == lp {
        accounts.last().shares as int
    } else {
        held_in(accounts.drop_last(), lp)
    }
}

/// All the shares in a list of accounts.
pub open spec fn sum_of(accounts: Seq<LpAccount>) -> int
    decreases accounts.len(),
{
    if accounts.len() == 0 {
        0
    } else {
        sum_of(accounts.drop_last()) + accounts.last().shares
    }
}

/// No provider has two accounts, and none holds a negative number of shares.
pub open spec fn well_kept(accounts: Seq<LpAccount>) -> bool {
    &&& forall|i: int| 0 <= i < accounts.len() ==> (#[trigger] accounts[i]).shares >= 0
    &&& forall|i: int, j: int|
        0 <= i < j < accounts.len() ==> (#[trigger] accounts[i]).lp != (#[trigger] accounts[j]).lp
}

/// A provider holds what its one account says.
proof fn held_at(accounts: Seq<LpAccount>, i: int)
    requires
        well_kept(accounts),
        0 <= i < accounts.len(),
    ensures
        held_in(accounts, accounts[i].lp) == accounts[i].shares,
    decreases accounts.len(),
{
    if i < accounts.len() - 1 {
        held_at(accounts.drop_last(), i);
    }
}

/// A provider without an account holds nothing.
proof fn held_by_stranger(accounts: Seq<LpAccount>, lp: Identity)
    requires
        forall|i: int| 0 <= i < accounts.len() ==> (#[trigger] accounts[i]).lp != lp,
    ensures
        held_in(accounts, lp) == 0,
    decreases accounts.len(),
{
    if accounts.len() > 0 {
        held_by_stranger(accounts.drop_last(), lp);
    }
}

/// Rewriting one account changes what its owner holds and nothing else.
proof fn held_after_update(accounts: Seq<LpAccount>, i: int, shares: i128, lp: Identity)
    requires
        well_kept(accounts),
        0 <= i < accounts.len(),
    ensures
        held_in(accounts.update(i, LpAccount { lp: accounts[i].lp, shares }), lp) == if lp == accounts[i].lp {
            shares as int
        } else {
            held_in(accounts, lp)
        },
    decreases accounts.len(),
{
    let entry = LpAccount { lp: accounts[i].lp, shares };
    let updated = accounts.update(i, entry);
    if i == accounts.len() - 1 {
        assert(updated.drop_last() =~= accounts.drop_last());
    } else {
        assert(updated.drop_last() =~= accounts.drop_last().update(i, entry));
        held_after_update(accounts.drop_last(), i, shares, lp);
        assert(accounts.last().lp != accounts[i].lp);
    }
}

/// Rewriting one account changes the sum by the difference.
proof fn sum_after_update(accounts: Seq<LpAccount>, i: int, entry: LpAccount)
    requires
        0 <= i < accounts.len(),
    ensures
        sum_of(accounts.update(i, entry)) == sum_of(accounts) - accounts[i].shares + entry.shares,
    decreases accounts.len(),
{
    let updated = accounts.update(i, entry);
    if i == accounts.len() - 1 {
        assert(updated.drop_last() =~= accounts.drop_last());
    } else {
        assert(updated.drop_last() =~= accounts.drop_last().update(i, entry));
        sum_after_update(accounts.drop_last(), i, entry);
    }
}

/// No account holds more than all of them together.
proof fn sum_bounds_each(accounts: Seq<LpAccount>, i: int)
    requires
        forall|k: int| 0 <= k < accounts.len() ==> (#[trigger] accounts[k]).shares >= 0,
        0 <= i < accounts.len(),
    ensures
        accounts[i].shares <= sum_of(accounts),
        0 <= sum_of(accounts),
    decreases accounts.len(),
{
    sum_is_not_negative(accounts.drop_last());
    if i < accounts.len() - 1 {
        sum_bounds_each(accounts.drop_last(), i);
    }
}

/// Accounts without debts add up to no debt.
proof fn sum_is_not_negative(accounts: Seq<LpAccount>)
    requires
        forall|k: int| 0 <= k < accounts.len() ==> (#[trigger] accounts[k]).shares >= 0,
    ensures
        0 <= sum_of(accounts),
    decreases accounts.len(),
{
    if accounts.len() > 0 {
        sum_is_not_negative(accounts.drop_last());
    }
}

/// One account more adds its shares to the sum.
proof fn sum_step(accounts: Seq<LpAccount>, i: int)
    requires
        0 <= i < accounts.len(),
    ensures
        sum_of(accounts.subrange(0, i + 1)) == sum_of(accounts.subrange(0, i)) + accounts[i].shares,
{
    assert(accounts.subrange(0, i + 1).drop_last() =~= accounts.subrange(0, i));
}

/// The first accounts of a list hold no more than the whole list.
proof fn sum_grows(accounts: Seq<LpAccount>, i: int)
    requires
        forall|k: int| 0 <= k < accounts.len() ==> (#[trigger] accounts[k]).shares >= 0,
        0 <= i <= accounts.len(),
    ensures
        sum_of(accounts.subrange(0, i)) <= sum_of(accounts),
    decreases accounts.len() - i,
{
    if i < accounts.len() {
        sum_step(accounts, i);
        sum_grows(accounts, i + 1);
    } else {
        assert(accounts.subrange(0, i) =~= accounts);
    }
}

/// Whether a list of accounts is well kept.
fn accounts_well_kept(accounts: &Vec<LpAccount>) -> (ok: bool)
    ensures
        ok == well_kept(accounts@),
{
    let mut j: usize = 0;
    while j < accounts.len()
        invariant
            j <= accounts@.len(),
            forall|b: int| 0 <= b < j ==> (#[trigger] accounts@[b]).shares >= 0,
            forall|a: int, b: int|
                0 <= a < b < j ==> (#[trigger] accounts@[a]).lp != (#[trigger] accounts@[b]).lp,
        decreases accounts@.len() - j,
    {
        if accounts[j].shares < 0 {
            return false;
        }
        let mut i: usize = 0;
        while i < j
            invariant
                i <= j < accounts@.len(),
                forall|a: int| 0 <= a < i ==> (#[trigger] accounts@[a]).lp != accounts@[j as int].lp,
            decreases j - i,
        {
            if accounts[i].lp.same_as(&accounts[j].lp) {
                return false;
            }
            i += 1;
        }
        j += 1;
    }
    true
}

/// Whether the shares in a well-kept list of accounts are no more than
/// `total`.
fn accounts_within(accounts: &Vec<LpAccount>, total: i128) -> (ok: bool)
    requires
        well_kept(accounts@),
    ensures
        ok == (sum_of(accounts@) <= total),
{
    let mut sum: i128 = 0;
    let mut i: usize = 0;
    while i < accounts.len()
        invariant
            i <= accounts@.len(),
            well_kept(accounts@),
            sum == sum_of(accounts@.subrange(0, i as int)),
        decreases accounts@.len() - i,
    {
        proof {
            sum_step(accounts@, i as int);
            sum_grows(accounts@, i + 1);
        }
        sum = match sum.checked_add(accounts[i].shares) {
            Some(s) => s,
            None => { return false; },
        };
        i += 1;
    }
    assert(accounts@.subrange(0, i as int) =~= accounts@);
    sum <= total
}

impl PoolContract {
    /// The pool's books are in order: balance and shares are not negative,
    /// no provider has two accounts or a negative one, and the accounts held
    /// here hold no more than the shares outstanding.
    pub closed spec fn wf(&self) -> bool {
        &&& self.pool_balance >= 0
        &&& self.total_shares >= 0
        &&& well_kept(self.accounts@)
        &&& sum_of(self.accounts@) <= self.total_shares
    }

    /// Every provider's account is held here: the accounts add up to the
    /// shares outstanding. A pool that holds only some of the accounts is
    /// good for the providers it holds.
    pub closed spec fn fully_listed(&self) -> bool {
        sum_of(self.accounts@) == self.total_shares
    }

    /// What `fully_listed` says, for those who cannot see inside.
    pub proof fn accounts_add_up_where_fully_listed(&self)
        ensures
            self.fully_listed() <==> sum_of(self.accounts()) == self.total_shares(),
    {
    }

    /// Who administers the pool.
    pub closed spec fn admin(&self) -> Identity {
        self.admin
    }

    /// The asset the pool holds.
    pub closed spec fn token(&self) -> Identity {
        self.token
    }

    /// The round engine that may pay out of the pool and into it, once named.
    pub closed spec fn roulette(&self) -> Option<Identity> {
        self.roulette
    }

    /// The funds in the pool.
    pub closed spec fn balance(&self) -> int {
        self.pool_balance as int
    }

    /// The shares outstanding.
    pub closed spec fn total_shares(&self) -> int {
        self.total_shares as int
    }

    /// The accounts of the providers.
    pub closed spec fn accounts(&self) -> Seq<LpAccount> {
        self.accounts@
    }

    /// The shares a provider holds.
    pub closed spec fn shares_of(&self, lp: Identity) -> int {
        held_in(self.accounts@, lp)
    }

    /// A provider holds what its account says.
    pub proof fn shares_are_held_in_accounts(&self, lp: Identity)
        ensures
            self.shares_of(lp) == held_in(self.accounts(), lp),
    {
    }

    /// Neither balance nor shares are ever negative, and no provider holds
    /// more than all the shares.
    pub proof fn books_are_bounded(&self, lp: Identity)
        requires
            self.wf(),
        ensures
            0 <= self.balance() <= i128::MAX,
            0 <= self.shares_of(lp) <= self.total_shares() <= i128::MAX,
    {
        if exists|i: int| 0 <= i < self.accounts@.len() && (#[trigger] self.accounts@[i]).lp == lp {
            let i = choose|i: int| 0 <= i < self.accounts@.len() && (#[trigger] self.accounts@[i]).lp == lp;
            held_at(self.accounts@, i);
            sum_bounds_each(self.accounts@, i);
        } else {
            held_by_stranger(self.accounts@, lp);
            sum_is_not_negative(self.accounts@);
        }
    }

    /// An empty pool: no funds, no shares, no round engine yet.
    pub fn new(admin: Identity, token: Identity) -> (pool: PoolContract)
        ensures
            pool.wf(),
            pool.admin() == admin,
            pool.token() == token,
            pool.roulette() is None,
            pool.balance() == 0,
            pool.total_shares() == 0,
            pool.fully_listed(),
            forall|lp: Identity| pool.shares_of(lp) == 0,
    {
        PoolContract { admin, token, roulette: None, pool_balance: 0, total_shares: 0, accounts: Vec::new() }
    }

    /// A pool as it was written down, with all the accounts or with those of
    /// the providers at hand: `None` unless the books are in order, which is
    /// that balance and shares are not negative, that the accounts are well
    /// kept, and that they hold no more than the shares outstanding.
    pub fn restore(
        admin: Identity,
        token: Identity,
        roulette: Option<Identity>,
        pool_balance: i128,
        total_shares: i128,
        accounts: Vec<LpAccount>,
    ) -> (pool: Option<PoolContract>)
        ensures
            pool is Some <==> pool_balance >= 0 && total_shares >= 0 && well_kept(accounts@) && sum_of(accounts@)
                <= total_shares,
            pool matches Some(p) ==> {
                &&& p.wf()
                &&& p.admin() == admin
                &&& p.token() == token
                &&& p.roulette() == roulette
                &&& p.balance() == pool_balance
                &&& p.total_shares() == total_shares
                &&& p.accounts() == accounts@
                &&& p.fully_listed() == (sum_of(accounts@) == total_shares)
            },
    {
        if pool_balance < 0 || total_shares < 0 {
            return None;
        }
        if !accounts_well_kept(&accounts) {
            return None;
        }
        if !accounts_within(&accounts, total_shares) {
            return None;
        }
        Some(PoolContract { admin, token, roulette, pool_balance, total_shares, accounts })
    }

    /// Who administers the pool.
    pub fn get_admin(&self) -> (a: Identity)
        ensures
            a == self.admin(),
    {
        self.admin
    }

    /// The asset the pool holds.
    pub fn get_token(&self) -> (t: Identity)
        ensures
            t == self.token(),
    {
        self.token
    }

    /// The round engine, once it has been named.
    pub fn get_roulette(&self) -> (r: Option<Identity>)
        ensures
            r == self.roulette(),
    {
        self.roulette
    }

    /// The accounts of the providers, to be written down.
    pub fn get_accounts(&self) -> (list: Vec<LpAccount>)
        ensures
            list@ == self.accounts(),
    {
        let mut list: Vec<LpAccount> = Vec::new();
        let mut i: usize = 0;
        while i < self.accounts.len()
            invariant
                i <= self.accounts@.len(),
                list@ == self.accounts@.subrange(0, i as int),
            decreases self.accounts@.len() - i,
        {
            list.push(self.accounts[i]);
            i += 1;
        }
        assert(self.accounts@.subrange(0, i as int) =~= self.accounts@);
        list
    }

    /// The funds in the pool.
    pub fn get_pool_balance(&self) -> (b: i128)
        ensures
            b == self.balance(),
    {
        self.pool_balance
    }

    /// The shares outstanding.
    pub fn get_total_shares(&self) -> (s: i128)
        ensures
            s == self.total_shares(),
    {
        self.total_shares
    }

    /// Where a provider's account stands in the list, if it has one.
    fn find(&self, lp: &Identity) -> (found: Option<usize>)
        ensures
            match found {
                Some(i) => i < self.accounts@.len() && self.accounts@[i as int].lp == *lp,
                None => forall|i: int| 0 <= i < self.accounts@.len() ==> (#[trigger] self.accounts@[i]).lp != *lp,
            },
    {
        let mut i: usize = 0;
        while i < self.accounts.len()
            invariant
                i <= self.accounts@.len(),
                forall|k: int| 0 <= k < i ==> (#[trigger] self.accounts@[k]).lp != *lp,
            decreases self.accounts@.len() - i,
        {
            if self.accounts[i].lp.same_as(lp) {
                return Some(i);
            }
            i += 1;
        }
        None
    }

    /// Whether two states of the pool name the same admin, asset and engine.
    pub open spec fn same_setup(&self, other: &PoolContract) -> bool {
        &&& self.admin() == other.admin()
        &&& self.token() == other.token()
        &&& self.roulette() == other.roulette()
    }

    /// Whether two states of the pool differ at most in what `lp` holds.
    pub open spec fn same_accounts_but(&self, other: &PoolContract, lp: Identity) -> bool {
        forall|who: Identity| who != lp ==> self.shares_of(who) == other.shares_of(who)
    }

    /// Writes what `lp` holds and the new total in one step.
    fn book(&mut self, lp: Identity, shares: i128, total: i128)
        requires
            old(self).wf(),
            0 <= shares,
            total == old(self).total_shares() - old(self).shares_of(lp) + shares,
        ensures
            final(self).wf(),
            final(self).total_shares() == total,
            final(self).shares_of(lp) == shares,
            final(self).same_accounts_but(old(self), lp),
            final(self).same_setup(old(self)),
            final(self).balance() == old(self).balance(),
            final(self).fully_listed() == old(self).fully_listed(),
    {
        let ghost before = self.accounts@;
        match self.find(&lp) {
            Some(i) => {
                proof {
                    held_at(before, i as int);
                    sum_after_update(before, i as int, LpAccount { lp, shares });
                    assert forall|who: Identity|
                        held_in(before.update(i as int, LpAccount { lp, shares }), who) == if who == lp {
                            shares as int
                        } else {
                            held_in(before, who)
                        } by {
                        held_after_update(before, i as int, shares, who);
                    }
                }
                self.accounts[i] = LpAccount { lp, shares };
                assert(self.accounts@ == before.update(i as int, LpAccount { lp, shares }));
            },
            None => {
                proof {
                    held_by_stranger(before, lp);
                    assert(before.push(LpAccount { lp, shares }).drop_last() =~= before);
                }
                self.accounts.push(LpAccount { lp, shares });
            },
        }
        self.total_shares = total;
        proof {
            sum_is_not_negative(self.accounts@);
        }
    }

    /// Names the round engine. Only the admin may, and only once.
    pub fn set_roulette(&mut self, caller: &Identity, roulette: Identity) -> (r: Result<(), PoolError>)
        requires
            old(self).wf(),
        ensures
            final(self).wf(),
            r is Ok <==> *caller == old(self).admin() && old(self).roulette() is None,
            r matches Err(e) ==> *final(self) == *old(self) && e == if *caller != old(self).admin() {
                PoolError::Unauthorized
            } else {
                PoolError::RouletteAlreadySet
            },
            r is Ok ==> final(self).roulette() == Some(roulette) && final(self).admin() == old(self).admin()
                && final(self).token() == old(self).token() && final(self).balance() == old(self).balance()
                && final(self).total_shares() == old(self).total_shares() && final(self).fully_listed() == old(
                self,
            ).fully_listed() && forall|lp: Identity| final(self).shares_of(lp) == old(self).shares_of(lp),
    {
        if !caller.same_as(&self.admin) {
            return Err(PoolError::Unauthorized);
        }
        if self.roulette.is_some() {
            return Err(PoolError::RouletteAlreadySet);
        }
        self.roulette = Some(roulette);
        Ok(())
    }

    /// Whether `caller` is the round engine the pool was given.
    fn is_roulette(&self, caller: &Identity) -> (yes: bool)
        ensures
            yes == (self.roulette() == Some(*caller)),
    {
        match &self.roulette {
            Some(r) => r.same_as(caller),
            None => false,
        }
    }

    /// A provider puts `amount` into the pool and is credited the shares that
    /// mints. The funds are the caller's to move.
    pub fn deposit(&mut self, lp: Identity, amount: i128) -> (r: Result<i128, PoolError>)
        requires
            old(self).wf(),
        ensures
            final(self).wf(),
            match r {
                Ok(minted) => {
                    &&& deposit_outcome(old(self).balance(), old(self).total_shares(), amount as int) == Ok::<
                        int,
                        PoolError,
                    >(minted as int)
                    &&& final(self).balance() == old(self).balance() + amount
                    &&& final(self).total_shares() == old(self).total_shares() + minted
                    &&& final(self).shares_of(lp) == old(self).shares_of(lp) + minted
                    &&& final(self).same_accounts_but(old(self), lp)
                    &&& final(self).fully_listed() == old(self).fully_listed()
                    &&& final(self).same_setup(old(self))
                },
                Err(e) => {
                    &&& deposit_outcome(old(self).balance(), old(self).total_shares(), amount as int) == Err::<
                        int,
                        PoolError,
                    >(e)
                    &&& *final(self) == *old(self)
                },
            },
    {
        if amount <= 0 {
            return Err(PoolError::AmountNotPositive);
        }
        let minted: i128 = if self.total_shares == 0 {
            amount
        } else {
            if self.pool_balance == 0 {
                return Err(PoolError::PoolDrained);
            }
            match mul_div(amount, self.total_shares, self.pool_balance) {
                Some(minted) => minted,
                // more shares than there can be
                None => { return Err(PoolError::Overflow); },
            }
        };
        if minted <= 0 {
            return Err(PoolError::DepositTooSmall);
        }
        let balance: i128 = match self.pool_balance.checked_add(amount) {
            Some(b) => b,
            None => { return Err(PoolError::Overflow); },
        };
        let total: i128 = match self.total_shares.checked_add(minted) {
            Some(t) => t,
            None => { return Err(PoolError::Overflow); },
        };
        let held: i128 = self.get_lp_shares(&lp);
        proof {
            self.books_are_bounded(lp);
        }
        self.pool_balance = balance;
        self.book(lp, held + minted, total);
        Ok(minted)
    }

    /// A provider burns `shares` and is owed their part of the balance.
    pub fn withdraw(&mut self, lp: Identity, shares: i128) -> (r: Result<Payment, PoolError>)
        requires
            old(self).wf(),
        ensures
            final(self).wf(),
            match r {
                Ok(paid) => {
                    &&& withdraw_outcome(
                        old(self).balance(),
                        old(self).total_shares(),
                        old(self).shares_of(lp),
                        shares as int,
                    ) == Ok::<int, PoolError>(paid.amount as int)
                    &&& paid.to == lp
                    &&& final(self).balance() == old(self).balance() - paid.amount
                    &&& final(self).total_shares() == old(self).total_shares() - shares
                    &&& final(self).shares_of(lp) == old(self).shares_of(lp) - shares
                    &&& final(self).same_accounts_but(old(self), lp)
                    &&& final(self).fully_listed() == old(self).fully_listed()
                    &&& final(self).same_setup(old(self))
                },
                Err(e) => {
                    &&& withdraw_outcome(
                        old(self).balance(),
                        old(self).total_shares(),
                        old(self).shares_of(lp),
                        shares as int,
                    ) == Err::<int, PoolError>(e)
                    &&& *final(self) == *old(self)
                },
            },
    {
        if shares <= 0 {
            return Err(PoolError::SharesNotPositive);
        }
        let held: i128 = self.get_lp_shares(&lp);
        if shares > held {
            return Err(PoolError::InsufficientShares);
        }
        proof {
            self.books_are_bounded(lp);
        }
        proof {
            a_withdrawal_fits_the_balance(self.pool_balance as int, self.total_shares as int, shares as int);
        }
        let amount: i128 = match mul_div(shares, self.pool_balance, self.total_shares) {
            Some(part) => part,
            // a part of the balance fits where the balance does
            None => { return Err(PoolError::Overflow); },
        };
        if amount <= 0 {
            return Err(PoolError::WithdrawTooSmall);
        }
        self.pool_balance = self.pool_balance - amount;
        self.book(lp, held - shares, self.total_shares - shares);
        Ok(Payment { to: lp, amount })
    }

    /// The round engine has the pool pay a winner.
    ///
    /// A payout of the whole balance leaves shares without a balance, out of
    /// step; a deposit is then refused as `PoolDrained` until a stake is
    /// absorbed.
    pub fn payout(&mut self, caller: &Identity, winner: Identity, amount: i128) -> (r: Result<Payment, PoolError>)
        requires
            old(self).wf(),
        ensures
            final(self).wf(),
            final(self).same_setup(old(self)),
            final(self).total_shares() == old(self).total_shares(),
            final(self).fully_listed() == old(self).fully_listed(),
            forall|lp: Identity| final(self).shares_of(lp) == old(self).shares_of(lp),
            match r {
                Ok(paid) => {
                    &&& old(self).roulette() == Some(*caller)
                    &&& 0 < amount <= old(self).balance()
                    &&& paid == (Payment { to: winner, amount })
                    &&& final(self).balance() == old(self).balance() - amount
                },
                Err(e) => {
                    &&& *final(self) == *old(self)
                    &&& e == if old(self).roulette() != Some(*caller) {
                        PoolError::Unauthorized
                    } else if amount <= 0 {
                        PoolError::AmountNotPositive
                    } else {
                        PoolError::InsufficientBalance
                    }
                    &&& old(self).roulette() != Some(*caller) || amount <= 0 || amount > old(self).balance()
                },
            },
    {
        if !self.is_roulette(caller) {
            return Err(PoolError::Unauthorized);
        }
        if amount <= 0 {
            return Err(PoolError::AmountNotPositive);
        }
        if amount > self.pool_balance {
            return Err(PoolError::InsufficientBalance);
        }
        self.pool_balance = self.pool_balance - amount;
        Ok(Payment { to: winner, amount })
    }

    /// The round engine hands the pool a lost stake, already in the pool's
    /// custody. No share is minted: every share is worth more.
    ///
    /// A stake absorbed while no shares are outstanding leaves a balance
    /// without shares, out of step; the next deposit is still one to one.
    pub fn absorb(&mut self, caller: &Identity, amount: i128) -> (r: Result<(), PoolError>)
        requires
            old(self).wf(),
        ensures
            final(self).wf(),
            final(self).same_setup(old(self)),
            final(self).total_shares() == old(self).total_shares(),
            final(self).fully_listed() == old(self).fully_listed(),
            forall|lp: Identity| final(self).shares_of(lp) == old(self).shares_of(lp),
            match r {
                Ok(_) => {
                    &&& old(self).roulette() == Some(*caller)
                    &&& 0 < amount
                    &&& final(self).balance() == old(self).balance() + amount
                },
                Err(e) => {
                    &&& *final(self) == *old(self)
                    &&& e == if old(self).roulette() != Some(*caller) {
                        PoolError::Unauthorized
                    } else if amount <= 0 {
                        PoolError::AmountNotPositive
                    } else {
                        PoolError::Overflow
                    }
                    &&& old(self).roulette() != Some(*caller) || amount <= 0 || old(self).balance() + amount
                        > i128::MAX
                },
            },
    {
        if !self.is_roulette(caller) {
            return Err(PoolError::Unauthorized);
        }
        if amount <= 0 {
            return Err(PoolError::AmountNotPositive);
        }
        match self.pool_balance.checked_add(amount) {
            Some(b) => {
                self.pool_balance = b;
                Ok(())
            },
            None => Err(PoolError::Overflow),
        }
    }

    /// The largest bet the pool takes.
    pub fn get_max_bet(&self) -> (m: i128)
        requires
            self.wf(),
        ensures
            m == max_bet(self.balance()),
    {
        let den: i128 = BPS_DENOMINATOR as i128;
        let bps: i128 = MAX_BET_RATIO_BPS as i128;
        let whole: i128 = self.pool_balance / den;
        let rest: i128 = self.pool_balance % den;
        whole * bps + rest * bps / den
    }

    /// The price of a share, scaled by the precision; `Overflow` where the
    /// price does not fit.
    pub fn get_share_price(&self) -> (p: Result<i128, PoolError>)
        requires
            self.wf(),
        ensures
            match p {
                Ok(price) => price == share_price(self.balance(), self.total_shares()),
                Err(e) => e == PoolError::Overflow,
            },
            p is Err <==> share_price(self.balance(), self.total_shares()) > i128::MAX,
    {
        if self.total_shares == 0 {
            return Ok(0);
        }
        match mul_div(self.pool_balance, SHARE_PRICE_PRECISION, self.total_shares) {
            Some(price) => Ok(price),
            None => Err(PoolError::Overflow),
        }
    }

    /// The shares a provider holds; 0 for one the pool has never seen.
    pub fn get_lp_shares(&self, lp: &Identity) -> (s: i128)
        requires
            self.wf(),
        ensures
            s == self.shares_of(*lp),
    {
        match self.find(lp) {
            Some(i) => {
                proof {
                    held_at(self.accounts@, i as int);
                }
                self.accounts[i].shares
            },
            None => {
                proof {
                    held_by_stranger(self.accounts@, *lp);
                }
                0
            },
        }
    }
}

/// The first deposit mints one share per unit, and a share is then worth
/// exactly the precision.
pub proof fn first_deposit_is_one_to_one(amount: int)
    requires
        0 < amount <= i128::MAX,
    ensures
        deposit_outcome(0, 0, amount) == Ok::<int, PoolError>(amount),
        share_price(amount, amount) == SHARE_PRICE_PRECISION,
{
    assert(amount * 10_000_000 / amount == 10_000_000) by (nonlinear_arith)
        requires
            amount > 0,
    ;
}

/// A deposit into a pool that has shares and a balance mints the deposit
/// times the shares over the balance, rounded down, and is refused where that
/// rounds to nothing. Only the new balance and the new number of shares have
/// to fit; the product need not.
pub proof fn later_deposit_mints_in_proportion(balance: int, total_shares: int, amount: int)
    requires
        0 < balance,
        0 < total_shares,
        0 < amount,
        balance + amount <= i128::MAX,
        total_shares + amount * total_shares / balance <= i128::MAX,
    ensures
        deposit_outcome(balance, total_shares, amount) == if amount * total_shares / balance == 0 {
            Err::<int, PoolError>(PoolError::DepositTooSmall)
        } else {
            Ok::<int, PoolError>(amount * total_shares / balance)
        },
{
    assert(amount * total_shares / balance >= 0) by (nonlinear_arith)
        requires
            0 < balance,
            0 < total_shares,
            0 < amount,
    ;
}

/// A provider who holds every share and burns them all is paid the whole
/// balance, what the pool has absorbed included.
pub proof fn sole_provider_withdraws_everything(balance: int, absorbed: int, shares: int)
    requires
        0 < shares,
        0 <= balance,
        0 <= absorbed,
        0 < balance + absorbed,
    ensures
        withdraw_outcome(balance + absorbed, shares, shares, shares) == Ok::<int, PoolError>(balance + absorbed),
{
    assert(shares * (balance + absorbed) / shares == balance + absorbed) by (nonlinear_arith)
        requires
            shares > 0,
    ;
}

/// Absorbing a stake never lowers the price of a share.
pub proof fn absorbing_never_lowers_the_price(balance: int, absorbed: int, total_shares: int)
    requires
        0 <= balance,
        0 <= absorbed,
        0 <= total_shares,
    ensures
        share_price(balance, total_shares) <= share_price(balance + absorbed, total_shares),
{
    if total_shares > 0 {
        assert(balance * 10_000_000 / total_shares <= (balance + absorbed) * 10_000_000 / total_shares)
            by (nonlinear_arith)
            requires
                0 <= balance,
                0 <= absorbed,
                0 < total_shares,
        ;
    }
}

/// A deposit never dilutes the shares that are there: the balance grows at
/// least as fast as the shares do.
pub proof fn deposits_never_dilute(balance: int, total_shares: int, amount: int)
    requires
        0 < balance,
        0 < total_shares,
        0 < amount,
    ensures
        balance * (total_shares + shares_minted(balance, total_shares, amount)) <= (balance + amount)
            * total_shares,
{
    let minted: int = amount * total_shares / balance;
    assert(balance * minted <= amount * total_shares) by (nonlinear_arith)
        requires
            0 < balance,
            minted == amount * total_shares / balance,
    ;
    assert(balance * (total_shares + minted) == balance * total_shares + balance * minted) by (nonlinear_arith);
    assert((balance + amount) * total_shares == balance * total_shares + amount * total_shares)
        by (nonlinear_arith);
}

/// Nobody is paid more than the pool holds: what a provider's shares are
/// worth never exceeds the balance.
pub proof fn a_withdrawal_fits_the_balance(balance: int, total_shares: int, shares: int)
    requires
        0 <= balance,
        0 < shares <= total_shares,
    ensures
        0 <= withdrawal_value(balance, total_shares, shares) <= balance,
{
    assert(0 <= shares * balance / total_shares <= balance) by (nonlinear_arith)
        requires
            0 <= balance,
            0 < shares <= total_shares,
    ;
}

/// A deposit keeps balance and shares in step: it adds to both.
pub proof fn deposits_keep_balance_and_shares_in_step(balance: int, total_shares: int, amount: int)
    requires
        0 <= balance,
        0 <= total_shares,
        in_step(balance, total_shares),
        deposit_outcome(balance, total_shares, amount) is Ok,
    ensures
        in_step(
            balance + amount,
            total_shares + deposit_outcome(balance, total_shares, amount)->Ok_0,
        ),
{
}

/// A withdrawal keeps balance and shares in step: the last shares take the
/// last of the balance, and nothing short of them does.
pub proof fn withdrawals_keep_balance_and_shares_in_step(balance: int, total_shares: int, held: int, shares: int)
    requires
        0 <= balance,
        0 <= held <= total_shares,
        in_step(balance, total_shares),
        withdraw_outcome(balance, total_shares, held, shares) is Ok,
    ensures
        in_step(
            balance - withdraw_outcome(balance, total_shares, held, shares)->Ok_0,
            total_shares - shares,
        ),
{
    let paid: int = shares * balance / total_shares;
    if shares == total_shares {
        assert(paid == balance) by (nonlinear_arith)
            requires
                paid == shares * balance / total_shares,
                shares == total_shares,
                shares > 0,
        ;
    } else {
        assert(paid < balance) by (nonlinear_arith)
            requires
                paid == shares * balance / total_shares,
                0 < shares < total_shares,
                0 < paid,
                0 <= balance,
        ;
    }
}

/// Absorbing into a pool that has shares keeps balance and shares in step.
/// Two things can put them out of step: a payout of the whole balance while
/// shares are outstanding, and a stake absorbed while there are none.
pub proof fn absorbing_into_shares_keeps_in_step(balance: int, total_shares: int, amount: int)
    requires
        0 <= balance,
        0 < total_shares,
        0 < amount,
        in_step(balance, total_shares),
    ensures
        in_step(balance + amount, total_shares),
{
}

} // verus!

//! Share accounting of the lenders' liquidity pool.
use crate::math::lemma_scaled_le;
use crate::state::LiquidityPool;
use vstd::prelude::*;

verus! {

/// Shares minted for a deposit of `amount`: one per token into a pool without
/// shares, otherwise the deposit's part of the pool's liquidity, rounded down.
pub open spec fn deposit_shares(total_liquidity: u64, total_shares: u64, amount: u64) -> int {
    if total_shares == 0 {
        amount as int
    } else {
        (amount * total_shares) / (total_liquidity as int)
    }
}

/// Tokens paid out for redeeming `shares`: their part of the pool's liquidity, rounded down.
pub open spec fn redeem_amount(total_liquidity: u64, total_shares: u64, shares: u64) -> int {
    (shares * total_liquidity) / (total_shares as int)
}

/// Shares a gap allocation of `gap_amount` costs the pool, rounded down.
pub open spec fn gap_share_cost(total_liquidity: u64, total_shares: u64, gap_amount: u64) -> int {
    (gap_amount * total_shares) / (total_liquidity as int)
}

/// The pool after a deposit of `amount`: the amount joins the liquidity and its shares are minted.
pub open spec fn deposited(pool: LiquidityPool, amount: u64) -> LiquidityPool {
    LiquidityPool {
        total_liquidity: (pool.total_liquidity + amount) as u64,
        total_shares: (pool.total_shares + deposit_shares(
            pool.total_liquidity,
            pool.total_shares,
            amount,
        )) as u64,
        ..pool
    }
}

/// The pool after `shares` are redeemed: the shares are burnt and what they are worth leaves.
pub open spec fn redeemed(pool: LiquidityPool, shares: u64) -> LiquidityPool {
    LiquidityPool {
        total_liquidity: (pool.total_liquidity - redeem_amount(
            pool.total_liquidity,
            pool.total_shares,
            shares,
        )) as u64,
        total_shares: (pool.total_shares - shares) as u64,
        ..pool
    }
}

/// The pool after `gap_amount` is matched to a payment: it leaves the liquidity
/// and joins what is allocated, and the shares it is worth are burnt.
pub open spec fn allocated(pool: LiquidityPool, gap_amount: u64) -> LiquidityPool {
    LiquidityPool {
        total_liquidity: (pool.total_liquidity - gap_amount) as u64,
        total_shares: (pool.total_shares - gap_share_cost(
            pool.total_liquidity,
            pool.total_shares,
            gap_amount,
        )) as u64,
        allocated: (pool.allocated + gap_amount) as u64,
        ..pool
    }
}

/// Pool liquidity not yet matched to gap loans.
pub open spec fn free_liquidity(pool: LiquidityPool) -> int {
    pool.total_liquidity - pool.allocated
}

/// A deposit of `amount` can be computed without overflow or division by zero.
pub open spec fn deposit_fits(pool: LiquidityPool, amount: u64) -> bool {
    &&& pool.total_shares != 0 ==> pool.total_liquidity > 0 && amount * pool.total_shares
        <= u64::MAX
    &&& pool.total_liquidity + amount <= u64::MAX
    &&& pool.total_shares + deposit_shares(pool.total_liquidity, pool.total_shares, amount)
        <= u64::MAX
}

/// Redeeming `shares` can be computed without overflow, underflow or division by zero.
pub open spec fn redeem_fits(pool: LiquidityPool, shares: u64) -> bool {
    &&& 0 < shares <= pool.total_shares
    &&& shares * pool.total_liquidity <= u64::MAX
}

/// A gap allocation of `gap_amount` can be computed without overflow,
/// underflow or division by zero.
pub open spec fn allocation_fits(pool: LiquidityPool, gap_amount: u64) -> bool {
    &&& pool.allocated <= pool.total_liquidity
    &&& free_liquidity(pool) >= gap_amount ==> pool.total_liquidity > 0 && gap_amount
        * pool.total_shares <= u64::MAX
}

impl LiquidityPool {
    /// Shares minted for a deposit of `amount`.
    pub fn shares_for_deposit(&self, amount: u64) -> (shares: u64)
        requires
            self.total_shares != 0 ==> self.total_liquidity > 0 && amount * self.total_shares
                <= u64::MAX,
        ensures
            shares == deposit_shares(self.total_liquidity, self.total_shares, amount),
    {
        if self.total_shares == 0 {
            amount
        } else {
            amount.checked_mul(self.total_shares).unwrap() / self.total_liquidity
        }
    }

    /// Adds a deposit of `amount` to the pool and mints its shares.
    pub fn add_liquidity(&mut self, amount: u64) -> (shares: u64)
        requires
            deposit_fits(*old(self), amount),
        ensures
            shares == deposit_shares(old(self).total_liquidity, old(self).total_shares, amount),
            *final(self) == deposited(*old(self), amount),
    {
        let shares = self.shares_for_deposit(amount);
        self.total_liquidity = self.total_liquidity.checked_add(amount).unwrap();
        self.total_shares = self.total_shares.checked_add(shares).unwrap();
        shares
    }

    /// Takes `shares` out of the pool and returns the tokens they are worth.
    pub fn redeem(&mut self, shares: u64) -> (amount: u64)
        requires
            redeem_fits(*old(self), shares),
        ensures
            amount == redeem_amount(old(self).total_liquidity, old(self).total_shares, shares),
            amount <= old(self).total_liquidity,
            *final(self) == redeemed(*old(self), shares),
    {
        proof {
            lemma_scaled_le(shares as int, self.total_liquidity as int, self.total_shares as int);
        }
        let amount = shares.checked_mul(self.total_liquidity).unwrap() / self.total_shares;
        self.total_liquidity = self.total_liquidity - amount;
        self.total_shares = self.total_shares - shares;
        amount
    }
}

} // verus!

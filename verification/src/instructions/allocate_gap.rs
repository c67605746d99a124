use crate::error::CustomError;
use crate::math::lemma_scaled_le;
use crate::pool::{allocated, allocation_fits, free_liquidity, gap_share_cost};
use crate::state::{LiquidityPool, Payment};
use vstd::prelude::*;

verus! {

/// What `allocate_gap` reads and writes: the payment and the pool.
pub struct AllocateGap {
    pub payment: Payment,
    pub pool: LiquidityPool,
}

/// Matches `gap_amount` of the pool's free liquidity to the payment, as
/// `handle_allocate_gap` does, after checking the same condition first; the
/// result is the number of pool shares the allocation consumed.
pub fn allocate_gap(ctx: &mut AllocateGap, gap_amount: u64) -> (r: Result<u64, CustomError>)
    requires
        allocation_fits(old(ctx).pool, gap_amount),
    ensures
        r is Ok <==> old(ctx).pool.total_liquidity - old(ctx).pool.allocated >= gap_amount,
        r matches Ok(consumed) ==> {
            &&& consumed == gap_amount * old(ctx).pool.total_shares / old(ctx).pool.total_liquidity as int
            &&& final(ctx).payment.gap_shares == consumed
            &&& final(ctx).payment.gap_amount == gap_amount
            &&& final(ctx).pool.total_shares == old(ctx).pool.total_shares - consumed
            &&& final(ctx).pool.total_liquidity == old(ctx).pool.total_liquidity - gap_amount
            &&& final(ctx).pool.allocated == old(ctx).pool.allocated + gap_amount
        },
        free_liquidity(old(ctx).pool) < gap_amount ==> r == Err::<u64, CustomError>(
            CustomError::InsufficientLiquidity,
        ) && *final(ctx) == *old(ctx),
        free_liquidity(old(ctx).pool) >= gap_amount ==> {
            &&& r == Ok::<u64, CustomError>(
                gap_share_cost(
                    old(ctx).pool.total_liquidity,
                    old(ctx).pool.total_shares,
                    gap_amount,
                ) as u64,
            )
            &&& final(ctx).pool == allocated(old(ctx).pool, gap_amount)
            &&& final(ctx).payment == (Payment {
                gap_amount: gap_amount,
                gap_shares: gap_share_cost(
                    old(ctx).pool.total_liquidity,
                    old(ctx).pool.total_shares,
                    gap_amount,
                ) as u64,
                ..old(ctx).payment
            })
        },
{
    if !(ctx.pool.total_liquidity - ctx.pool.allocated >= gap_amount) {
        return Err(CustomError::InsufficientLiquidity);
    }
    proof {
        lemma_scaled_le(gap_amount as int, ctx.pool.total_shares as int, ctx.pool.total_liquidity as int);
    }
    match handle_allocate_gap(&mut ctx.payment, &mut ctx.pool, gap_amount) {
        Ok(()) => Ok(ctx.payment.gap_shares),
        Err(e) => Err(e),
    }
}

/// Matches `gap_amount` of the pool's free liquidity to `payment`: the amount
/// leaves the pool's liquidity, the shares it is worth are burnt, and both are
/// recorded on the payment. Refused with `InsufficientLiquidity` when the free
/// liquidity is smaller than `gap_amount`, and then nothing changes.
pub fn handle_allocate_gap(payment: &mut Payment, pool: &mut LiquidityPool, gap_amount: u64) -> (r:
    Result<(), CustomError>)
    requires
        allocation_fits(*old(pool), gap_amount),
    ensures
        free_liquidity(*old(pool)) < gap_amount ==> r == Err::<(), CustomError>(
            CustomError::InsufficientLiquidity,
        ) && *final(pool) == *old(pool) && *final(payment) == *old(payment),
        free_liquidity(*old(pool)) >= gap_amount ==> {
            let cost = gap_share_cost(
                old(pool).total_liquidity,
                old(pool).total_shares,
                gap_amount,
            );
            &&& r == Ok::<(), CustomError>(())
            &&& *final(pool) == allocated(*old(pool), gap_amount)
            &&& *final(payment) == (Payment {
                gap_amount: gap_amount,
                gap_shares: cost as u64,
                ..*old(payment)
            })
        },
{
    if !(pool.total_liquidity - pool.allocated >= gap_amount) {
        return Err(CustomError::InsufficientLiquidity);
    }
    proof {
        lemma_scaled_le(gap_amount as int, pool.total_shares as int, pool.total_liquidity as int);
    }
    let share_cost = gap_amount.checked_mul(pool.total_shares).unwrap() / pool.total_liquidity;
    pool.total_liquidity = pool.total_liquidity - gap_amount;
    pool.total_shares = pool.total_shares - share_cost;
    pool.allocated = pool.allocated + gap_amount;
    payment.gap_amount = gap_amount;
    payment.gap_shares = share_cost;
    Ok(())
}

} // verus!

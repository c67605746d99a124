use crate::error::CustomError;
use crate::pool::{redeem_amount, redeem_fits, redeemed};
use crate::state::{BorrowerDeposit, DepositStatus, LiquidityPool};
use anchor_lang::prelude::Pubkey;
use vstd::prelude::*;

verus! {

/// What `withdraw_liquidity` reads and writes: the pool, the lender's deposit record, the lender.
pub struct WithdrawLiquidity {
    pub pool: LiquidityPool,
    pub deposit: BorrowerDeposit,
    pub owner: Pubkey,
}

/// The lender redeems all shares on record; the result is the amount of USD*
/// they are worth, to be paid out of the pool's vault. The record is marked
/// `Withdrawn` and keeps its share count. Refused with `NothingToWithdraw`,
/// changing nothing, when the record holds no shares.
pub fn withdraw_liquidity(ctx: &mut WithdrawLiquidity) -> (r: Result<u64, CustomError>)
    requires
        old(ctx).deposit.shares > 0 ==> redeem_fits(old(ctx).pool, old(ctx).deposit.shares),
    ensures
        old(ctx).deposit.shares > 0 ==> r == Ok::<u64, CustomError>(
            (old(ctx).deposit.shares * old(ctx).pool.total_liquidity / old(ctx).pool.total_shares as int) as u64,
        ) && final(ctx).pool.total_shares == old(ctx).pool.total_shares - old(ctx).deposit.shares
            && final(ctx).pool.total_liquidity == old(ctx).pool.total_liquidity - r->Ok_0
            && final(ctx).deposit.status == DepositStatus::Withdrawn,
        old(ctx).deposit.shares == 0 ==> r == Err::<u64, CustomError>(
            CustomError::NothingToWithdraw,
        ) && *final(ctx) == *old(ctx),
        old(ctx).deposit.shares > 0 ==> {
            &&& r == Ok::<u64, CustomError>(
                redeem_amount(
                    old(ctx).pool.total_liquidity,
                    old(ctx).pool.total_shares,
                    old(ctx).deposit.shares,
                ) as u64,
            )
            &&& *final(ctx) == (WithdrawLiquidity {
                pool: redeemed(old(ctx).pool, old(ctx).deposit.shares),
                deposit: BorrowerDeposit { status: DepositStatus::Withdrawn, ..old(ctx).deposit },
                ..*old(ctx)
            })
        },
{
    let dep_shares = ctx.deposit.shares;
    if !(dep_shares > 0) {
        return Err(CustomError::NothingToWithdraw);
    }
    let amount = ctx.pool.redeem(dep_shares);
    ctx.deposit.status = DepositStatus::Withdrawn;
    Ok(amount)
}

} // verus!

use crate::error::CustomError;
use crate::keys::keys_equal;
use crate::state::{Config, Investment, InvestmentStatus};
use anchor_lang::prelude::Pubkey;
use vstd::prelude::*;

verus! {

/// What `invest_gap` reads and writes: the config, the new investment, the
/// borrower, the mint of the token they lock, and the mints of the three
/// accepted stablecoins.
pub struct InvestGap {
    pub config: Config,
    pub investment: Investment,
    pub borrower: Pubkey,
    pub source_mint: Pubkey,
    pub usdc_mint: Pubkey,
    pub usdt_mint: Pubkey,
    pub usd_star_mint: Pubkey,
}

/// Gap capital is accepted in USD*, USDC or USDT.
pub open spec fn accepted_token(ctx: InvestGap) -> bool {
    ctx.source_mint == ctx.usd_star_mint || ctx.source_mint == ctx.usdc_mint || ctx.source_mint
        == ctx.usdt_mint
}

/// The investment of `amount` by `borrower`, locked from `now`.
pub open spec fn locked_investment(borrower: Pubkey, amount: u64, now: i64) -> Investment {
    Investment { borrower, amount, start_ts: now, status: InvestmentStatus::Locked }
}

/// The borrower locks `amount` of gap capital at time `now`; the result is the
/// amount to move from the borrower into the investment vault. Refused,
/// changing nothing, with `InputTooSmall` when `amount` is zero, else with
/// `UnsupportedToken` when the token is none of USD*, USDC and USDT.
pub fn invest_gap(ctx: &mut InvestGap, amount: u64, now: i64) -> (r: Result<u64, CustomError>)
    ensures
        amount > 0 && (old(ctx).source_mint == old(ctx).usd_star_mint
            || old(ctx).source_mint == old(ctx).usdc_mint
            || old(ctx).source_mint == old(ctx).usdt_mint) ==> {
            &&& r == Ok::<u64, CustomError>(amount)
            &&& final(ctx).investment.amount == amount
            &&& final(ctx).investment.start_ts == now
            &&& final(ctx).investment.borrower == old(ctx).borrower
            &&& final(ctx).investment.status == InvestmentStatus::Locked
        },
        amount > 0 && old(ctx).source_mint != old(ctx).usd_star_mint && old(ctx).source_mint
            != old(ctx).usdc_mint && old(ctx).source_mint != old(ctx).usdt_mint ==> r == Err::<
            u64,
            CustomError,
        >(CustomError::UnsupportedToken),
        amount == 0 ==> r == Err::<u64, CustomError>(CustomError::InputTooSmall) && *final(ctx)
            == *old(ctx),
        amount > 0 && !accepted_token(*old(ctx)) ==> r == Err::<u64, CustomError>(
            CustomError::UnsupportedToken,
        ) && *final(ctx) == *old(ctx),
        amount > 0 && accepted_token(*old(ctx)) ==> r == Ok::<u64, CustomError>(amount)
            && *final(ctx) == (InvestGap {
            investment: locked_investment(old(ctx).borrower, amount, now),
            ..*old(ctx)
        }),
{
    if !(amount > 0) {
        return Err(CustomError::InputTooSmall);
    }
    if !(keys_equal(&ctx.source_mint, &ctx.usd_star_mint) || keys_equal(
        &ctx.source_mint,
        &ctx.usdc_mint,
    ) || keys_equal(&ctx.source_mint, &ctx.usdt_mint)) {
        return Err(CustomError::UnsupportedToken);
    }
    let investment = &mut ctx.investment;
    investment.borrower = ctx.borrower;
    investment.amount = amount;
    investment.start_ts = now;
    investment.status = InvestmentStatus::Locked;
    Ok(amount)
}

} // verus!

use crate::cpi::{signer_seeds, vault_signer_seeds};
use crate::error::CustomError;
use crate::keys::keys_equal;
use crate::state::{Config, Investment, InvestmentStatus};
use anchor_lang::prelude::Pubkey;
use vstd::prelude::*;
use vstd::string::StringSliceAdditionalSpecFns;

verus! {

/// What `withdraw_investment` reads and writes: the config, the investment,
/// the borrower and the bump of the investment vault.
pub struct WithdrawInvestment {
    pub config: Config,
    pub investment: Investment,
    pub borrower: Pubkey,
    pub vault_bump: u8,
}

/// What a withdrawal pays out of the investment vault, and the seeds that sign for it.
pub struct WithdrawalPlan {
    pub amount: u64,
    pub signer_seeds: Vec<Vec<u8>>,
}

/// The moment from which a locked investment can be withdrawn.
pub open spec fn unlock_time(investment: Investment, config: Config) -> int {
    investment.start_ts + config.invest_lock_secs
}

/// The investment once withdrawn.
pub open spec fn withdrawn(investment: Investment) -> Investment {
    Investment { status: InvestmentStatus::Withdrawn, ..investment }
}

/// What withdrawing `investment` by `signer` at `now` comes to: the refusal,
/// or the amount paid back.
pub open spec fn investment_withdrawal(investment: Investment, config: Config, signer: Pubkey, now: i64) -> Result<u64, CustomError> {
    if signer != investment.borrower {
        Err(CustomError::Unauthorized)
    } else if investment.status != InvestmentStatus::Locked {
        Err(CustomError::InvalidState)
    } else if now < unlock_time(investment, config) {
        Err(CustomError::NotMature)
    } else {
        Ok(investment.amount)
    }
}

/// The borrower takes back a locked investment at time `now`. Refused,
/// changing nothing, with `Unauthorized` when the signer is not the
/// investment's borrower, else with `InvalidState` when it is not `Locked`,
/// else with `NotMature` before the lock ends. Otherwise the whole invested amount is
/// paid back and the investment is `Withdrawn`.
pub fn withdraw_investment(ctx: &mut WithdrawInvestment, now: i64) -> (r: Result<WithdrawalPlan, CustomError>)
    requires
        old(ctx).borrower == old(ctx).investment.borrower && old(ctx).investment.status
            == InvestmentStatus::Locked ==> i64::MIN <= unlock_time(
            old(ctx).investment,
            old(ctx).config,
        ) <= i64::MAX,
    ensures
        r is Ok <==> {
            &&& old(ctx).borrower == old(ctx).investment.borrower
            &&& old(ctx).investment.status == InvestmentStatus::Locked
            &&& now >= old(ctx).investment.start_ts + old(ctx).config.invest_lock_secs
        },
        r matches Ok(plan) ==> {
            &&& plan.amount == old(ctx).investment.amount
            &&& final(ctx).investment.amount == old(ctx).investment.amount
            &&& final(ctx).investment.status == InvestmentStatus::Withdrawn
        },
        (match r {
            Ok(plan) => investment_withdrawal(old(ctx).investment, old(ctx).config, old(ctx).borrower, now) == Ok::<
                u64,
                CustomError,
            >(plan.amount),
            Err(e) => investment_withdrawal(old(ctx).investment, old(ctx).config, old(ctx).borrower, now) == Err::<
                u64,
                CustomError,
            >(e),
        }),
        old(ctx).borrower != old(ctx).investment.borrower ==> r == Err::<
            WithdrawalPlan,
            CustomError,
        >(CustomError::Unauthorized) && *final(ctx) == *old(ctx),
        old(ctx).borrower == old(ctx).investment.borrower && old(ctx).investment.status
            != InvestmentStatus::Locked ==> r == Err::<
            WithdrawalPlan,
            CustomError,
        >(CustomError::InvalidState) && *final(ctx) == *old(ctx),
        old(ctx).borrower == old(ctx).investment.borrower && old(ctx).investment.status
            == InvestmentStatus::Locked && now < unlock_time(
            old(ctx).investment,
            old(ctx).config,
        ) ==> r == Err::<WithdrawalPlan, CustomError>(CustomError::NotMature) && *final(ctx)
            == *old(ctx),
        old(ctx).borrower == old(ctx).investment.borrower && old(ctx).investment.status
            == InvestmentStatus::Locked && now >= unlock_time(
            old(ctx).investment,
            old(ctx).config,
        ) ==> {
            &&& r is Ok
            &&& r->Ok_0.amount == old(ctx).investment.amount
            &&& r->Ok_0.signer_seeds.deep_view() == signer_seeds(
                "investment_vault".spec_bytes(),
                old(ctx).borrower,
                old(ctx).vault_bump,
            )
            &&& *final(ctx) == (WithdrawInvestment {
                investment: withdrawn(old(ctx).investment),
                ..*old(ctx)
            })
        },
{
    if !keys_equal(&ctx.borrower, &ctx.investment.borrower) {
        return Err(CustomError::Unauthorized);
    }
    if ctx.investment.status != InvestmentStatus::Locked {
        return Err(CustomError::InvalidState);
    }
    if !(now >= ctx.investment.start_ts + ctx.config.invest_lock_secs) {
        return Err(CustomError::NotMature);
    }
    let seeds = vault_signer_seeds("investment_vault", &ctx.borrower, ctx.vault_bump);
    let amount = ctx.investment.amount;
    ctx.investment.status = InvestmentStatus::Withdrawn;
    Ok(WithdrawalPlan { amount, signer_seeds: seeds })
}

} // verus!

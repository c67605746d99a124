use crate::cpi::{readonly, swap_data, writable, AccountEntry, CpiInstruction, SwapCall, SwapExactInHintlessData};
use crate::error::CustomError;
use crate::keys::keys_equal;
use crate::pool::{deposit_fits, deposit_shares, deposited};
use crate::state::{BorrowerDeposit, DepositStatus, LiquidityPool};
use anchor_lang::prelude::Pubkey;
use vstd::prelude::*;

verus! {

/// What `deposit_liquidity` reads and writes: the lender and the mint of the
/// token they pay with, the pool and the lender's deposit record (with its
/// bump), the pool's USD* vault and mint, and the accounts of the Numeraire
/// pool that swaps other stablecoins into USD*.
pub struct DepositLiquidity {
    pub borrower: Pubkey,
    pub source_mint: Pubkey,
    pub pool: LiquidityPool,
    pub deposit: BorrowerDeposit,
    pub deposit_bump: u8,
    pub vault_usd_star: Pubkey,
    pub usd_star_mint: Pubkey,
    pub num_pool: Pubkey,
    pub num_pool_program: Pubkey,
    pub numeraire_config: Pubkey,
    pub pool_source: Pubkey,
    pub token_program: Pubkey,
    pub token_2022_program: Pubkey,
}

/// The transfers and calls that carry out a deposit: `transfer_amount` moves
/// from the lender to the USD* vault when `to_vault`, else to the pool's source
/// account, from which `swap` trades it into USD*; `shares` were minted for it.
pub struct DepositPlan {
    pub to_vault: bool,
    pub transfer_amount: u64,
    pub swap: Option<SwapCall>,
    pub shares: u64,
}

/// The lender's shares before the deposit counts: none once withdrawn.
pub open spec fn standing_shares(deposit: BorrowerDeposit) -> int {
    if deposit.status == DepositStatus::Withdrawn {
        0
    } else {
        deposit.shares as int
    }
}

/// The deposit record after `shares` are credited to `owner` at `now`.
pub open spec fn credited(deposit: BorrowerDeposit, owner: Pubkey, shares: u64, now: i64, bump: u8) -> BorrowerDeposit {
    BorrowerDeposit {
        owner,
        shares: (standing_shares(deposit) + shares) as u64,
        start_ts: now,
        status: DepositStatus::Active,
        bump,
    }
}

/// The accounts of the swap into USD*, in the Numeraire pool's order; the pool
/// and the lender sign.
pub open spec fn deposit_swap_accounts(ctx: DepositLiquidity) -> Seq<AccountEntry> {
    seq![
        writable(ctx.num_pool, true),
        writable(ctx.source_mint, false),
        writable(ctx.usd_star_mint, false),
        writable(ctx.pool_source, false),
        writable(ctx.vault_usd_star, false),
        readonly(ctx.numeraire_config, false),
        writable(ctx.borrower, true),
        readonly(ctx.token_program, false),
        readonly(ctx.token_2022_program, false),
    ]
}

/// A deposit of `amount` can be recorded without overflow or division by zero.
pub open spec fn deposit_liquidity_fits(ctx: DepositLiquidity, amount: u64) -> bool {
    &&& deposit_fits(ctx.pool, amount)
    &&& standing_shares(ctx.deposit) + deposit_shares(
        ctx.pool.total_liquidity,
        ctx.pool.total_shares,
        amount,
    ) <= u64::MAX
}

/// The plan is the one for depositing `amount`, with `shares` minted.
pub open spec fn is_deposit_plan(ctx: DepositLiquidity, plan: DepositPlan, amount: u64) -> bool {
    &&& plan.transfer_amount == amount
    &&& plan.shares == deposit_shares(ctx.pool.total_liquidity, ctx.pool.total_shares, amount)
    &&& plan.to_vault == (ctx.source_mint == ctx.usd_star_mint)
    &&& plan.to_vault ==> plan.swap is None
    &&& !plan.to_vault ==> (plan.swap matches Some(swap) && {
        &&& swap.approve_amount == amount
        &&& swap.signer_seeds@.len() == 0
        &&& swap.instruction.program_id == ctx.num_pool_program
        &&& swap.instruction.accounts@ == deposit_swap_accounts(ctx)
        &&& swap.instruction.data@ == swap_data(
            SwapExactInHintlessData {
                in_index: 0,
                out_index: 1,
                exact_amount_in: amount,
                min_amount_out: 0,
            },
        )
    })
}

impl BorrowerDeposit {
    /// Credits `shares` to the record of `owner` at `now`: a withdrawn record
    /// starts again from zero.
    pub fn credit(&mut self, owner: Pubkey, shares: u64, now: i64, bump: u8)
        requires
            standing_shares(*old(self)) + shares <= u64::MAX,
        ensures
            *final(self) == credited(*old(self), owner, shares, now, bump),
    {
        if self.status == DepositStatus::Withdrawn {
            self.shares = 0;
        }
        self.owner = owner;
        self.shares = self.shares.checked_add(shares).unwrap();
        self.start_ts = now;
        self.status = DepositStatus::Active;
        self.bump = bump;
    }
}

/// The lender deposits `amount` at time `now`: the pool mints shares for it
/// and they are credited to the lender's record. Refused with
/// `InputTooSmall`, changing nothing, when `amount` is zero.
pub fn deposit_liquidity(ctx: &mut DepositLiquidity, amount: u64, now: i64) -> (r: Result<DepositPlan, CustomError>)
    requires
        amount > 0 ==> deposit_liquidity_fits(*old(ctx), amount),
    ensures
        r matches Ok(plan) ==> {
            &&& plan.to_vault <==> old(ctx).source_mint == old(ctx).usd_star_mint
            &&& plan.swap is None <==> old(ctx).source_mint == old(ctx).usd_star_mint
            &&& plan.transfer_amount == amount
            &&& old(ctx).pool.total_shares == 0 ==> plan.shares == amount
            &&& old(ctx).pool.total_shares != 0 ==> plan.shares == amount
                * old(ctx).pool.total_shares / old(ctx).pool.total_liquidity as int
            &&& final(ctx).pool.total_liquidity == old(ctx).pool.total_liquidity + amount
            &&& final(ctx).pool.total_shares == old(ctx).pool.total_shares + plan.shares
            &&& final(ctx).deposit.shares == (if old(ctx).deposit.status
                == DepositStatus::Withdrawn {
                0
            } else {
                old(ctx).deposit.shares as int
            }) + plan.shares
            &&& final(ctx).deposit.owner == old(ctx).borrower
            &&& final(ctx).deposit.status == DepositStatus::Active
            &&& final(ctx).deposit.start_ts == now
        },
        amount == 0 ==> r == Err::<DepositPlan, CustomError>(CustomError::InputTooSmall)
            && *final(ctx) == *old(ctx),
        amount > 0 ==> {
            &&& r is Ok
            &&& is_deposit_plan(*old(ctx), r->Ok_0, amount)
            &&& *final(ctx) == (DepositLiquidity {
                pool: deposited(old(ctx).pool, amount),
                deposit: credited(
                    old(ctx).deposit,
                    old(ctx).borrower,
                    r->Ok_0.shares,
                    now,
                    old(ctx).deposit_bump,
                ),
                ..*old(ctx)
            })
        },
{
    if !(amount > 0) {
        return Err(CustomError::InputTooSmall);
    }
    let is_usd_star = keys_equal(&ctx.source_mint, &ctx.usd_star_mint);
    let swap = if !is_usd_star {
        let payload = SwapExactInHintlessData {
            in_index: 0,
            out_index: 1,
            exact_amount_in: amount,
            min_amount_out: 0,
        };
        let mut accounts: Vec<AccountEntry> = Vec::new();
        accounts.push(AccountEntry::new(ctx.num_pool, true));
        accounts.push(AccountEntry::new(ctx.source_mint, false));
        accounts.push(AccountEntry::new(ctx.usd_star_mint, false));
        accounts.push(AccountEntry::new(ctx.pool_source, false));
        accounts.push(AccountEntry::new(ctx.vault_usd_star, false));
        accounts.push(AccountEntry::new_readonly(ctx.numeraire_config, false));
        accounts.push(AccountEntry::new(ctx.borrower, true));
        accounts.push(AccountEntry::new_readonly(ctx.token_program, false));
        accounts.push(AccountEntry::new_readonly(ctx.token_2022_program, false));
        assert(accounts@ =~= deposit_swap_accounts(*ctx));
        let instruction = CpiInstruction {
            program_id: ctx.num_pool_program,
            accounts,
            data: payload.instruction_data(),
        };
        Some(SwapCall { approve_amount: amount, signer_seeds: Vec::new(), instruction })
    } else {
        None
    };
    let shares = ctx.pool.add_liquidity(amount);
    ctx.deposit.credit(ctx.borrower, shares, now, ctx.deposit_bump);
    Ok(DepositPlan { to_vault: is_usd_star, transfer_amount: amount, swap, shares })
}

} // verus!

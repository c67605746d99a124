//! Properties of the program that span its instructions.
use crate::cpi::{swap_data, swap_exact_in_discriminator, AccountEntry, SwapExactInHintlessData};
use crate::discount::token_discount;
use crate::error::{error_index, CustomError};
use crate::instructions::deposit_liquidity::{credited, standing_shares};
use crate::instructions::execute_payment::{
    discounted_price, funded, is_payment_plan, payment_acceptance, ExecutePayment, PaymentPlan,
};
use crate::instructions::update_config::valid_bps;
use crate::instructions::init_config::initial_config;
use crate::instructions::initialize_payment::listed;
use crate::instructions::invest_gap::{accepted_token, locked_investment, InvestGap};
use crate::instructions::swap_stable::{stable_swap_accounts, SwapStable};
use crate::instructions::settle::{
    borrower_payout, seller_payout, settled, settlement, settlement_interest, settlement_total,
};
use crate::instructions::update_config::updated_config;
use crate::instructions::withdraw_investment::{investment_withdrawal, withdrawn};
use crate::math::{lemma_floor_mul_le, lemma_scaled_le};
use crate::pool::{
    allocated, allocation_fits, deposit_fits, deposit_shares, deposited, free_liquidity,
    gap_share_cost, redeem_amount, redeem_fits, redeemed,
};
use crate::state::{
    Investment, status_rank, status_step, BorrowerDeposit, Config, DepositStatus, LiquidityPool, Payment,
    PaymentStatus,
};
use anchor_lang::prelude::Pubkey;
use vstd::arithmetic::div_mod::{
    lemma_div_by_multiple, lemma_div_is_ordered, lemma_fundamental_div_mod,
    lemma_hoist_over_denominator,
};
use vstd::bytes::{lemma_auto_spec_u64_to_from_le_bytes, spec_u64_from_le_bytes, spec_u64_to_le_bytes};
use vstd::prelude::*;

verus! {

/// Settlement pays the seller the principal and half the yield, and the
/// borrower the other half; the yield is 4 % of the paid amount, rounded down,
/// and the two payouts never exceed what the payment has grown to.
pub proof fn law_settlement_split(paid: u64)
    ensures
        settlement_interest(paid) == paid * 4 / 100,
        seller_payout(paid) == paid + borrower_payout(paid),
        borrower_payout(paid) == paid * 4 / 100 / 2,
        seller_payout(paid) + borrower_payout(paid) <= settlement_total(paid),
        settlement_total(paid) - (seller_payout(paid) + borrower_payout(paid)) <= 1,
{
    lemma_hoist_over_denominator(paid * 4, paid as int, 100);
    assert(paid * 104 == paid * 4 + paid * 100);
}

/// The buyer is charged the discounted price: the price less the discount,
/// rounded in the seller's favour, never more than the price, and nothing
/// when the discount is the whole price or more.
pub proof fn law_discounted_price(price: u64, bps: u16)
    ensures
        0 <= discounted_price(price, bps) <= price,
        valid_bps(bps) ==> price - discounted_price(price, bps) == price * bps / 10_000,
        bps >= 10_000 ==> discounted_price(price, bps) == 0,
{
    assert(price * bps == bps * price) by (nonlinear_arith);
    if valid_bps(bps) {
        lemma_scaled_le(bps as int, price as int, 10_000);
    }
    if bps >= 10_000 {
        assert(price * bps >= price * 10_000) by (nonlinear_arith)
            requires
                bps >= 10_000,
        ;
        lemma_div_by_multiple(price as int, 10_000);
        lemma_div_is_ordered(price * 10_000, price * bps, 10_000);
    }
}

/// A listed payment can be paid once and settled once: paying it charges the
/// discounted price and records the payment as funded; a funded payment is
/// not paid again; it settles, with the split payouts of the charged amount,
/// exactly when the settlement wait after its payment has passed; a listed
/// payment that was never paid, or one already settled, is refused.
pub proof fn law_payment_lifecycle(
    payment: Payment,
    seller: Pubkey,
    price: u64,
    zero: Pubkey,
    config: Config,
    mint: Pubkey,
    bps: u16,
    paid_at: i64,
    now: i64,
)
    ensures
        ({
            let offered = listed(payment, seller, price, zero);
            let charged = discounted_price(price, bps) as u64;
            let paid = funded(offered, mint, charged, bps, paid_at);
            &&& payment_acceptance(offered, Some(bps)) == Ok::<u64, CustomError>(charged)
            &&& payment_acceptance(paid, Some(bps)) == Err::<u64, CustomError>(
                CustomError::InvalidState,
            )
            &&& settlement(offered, config, now) == Err::<(int, int), CustomError>(
                CustomError::InvalidState,
            )
            &&& settlement(paid, config, now) == if now > paid_at + config.settle_wait_secs {
                Ok::<(int, int), CustomError>((seller_payout(charged), borrower_payout(charged)))
            } else {
                Err::<(int, int), CustomError>(CustomError::NotMature)
            }
            &&& settlement(settled(paid), config, now) == Err::<(int, int), CustomError>(
                CustomError::InvalidState,
            )
        }),
{
}

/// A payment pays out at most once: once settled, every later settlement is
/// refused and the payment stays settled.
pub proof fn law_settle_at_most_once(payment: Payment, config: Config, now: i64)
    ensures
        settled(payment).status == PaymentStatus::Settled,
        settlement(settled(payment), config, now) == Err::<(int, int), CustomError>(
            CustomError::InvalidState,
        ),
{
}

/// A payment's stage only moves forward: along any history that starts
/// listed and changes by steps that paying and settling make, the stage
/// never goes back, and a settled payment was funded before.
pub proof fn law_status_history(history: Seq<PaymentStatus>)
    requires
        history.len() > 0,
        history[0] == PaymentStatus::Initialized,
        forall|i: int| 0 <= i < history.len() - 1 ==> status_step(history[i], #[trigger] history[i + 1]),
    ensures
        forall|i: int, j: int|
            0 <= i <= j < history.len() ==> status_rank(history[i]) <= status_rank(history[j]),
        forall|j: int|
            0 <= j < history.len() && history[j] == PaymentStatus::Settled ==> exists|i: int|
                0 <= i < j && history[i] == PaymentStatus::Funded,
{
    assert forall|i: int, j: int| 0 <= i <= j < history.len() implies status_rank(history[i])
        <= status_rank(history[j]) by {
        lemma_rank_grows(history, i, j);
    }
    assert forall|j: int| 0 <= j < history.len() && history[j] == PaymentStatus::Settled implies exists|
        i: int,
    | 0 <= i < j && history[i] == PaymentStatus::Funded by {
        let i = lemma_funded_before(history, j);
        assert(0 <= i < j && history[i] == PaymentStatus::Funded);
    }
}

proof fn lemma_rank_grows(h: Seq<PaymentStatus>, i: int, j: int)
    requires
        0 <= i <= j < h.len(),
        forall|k: int| 0 <= k < h.len() - 1 ==> status_step(h[k], #[trigger] h[k + 1]),
    ensures
        status_rank(h[i]) <= status_rank(h[j]),
    decreases j - i,
{
    if i < j {
        lemma_rank_grows(h, i, j - 1);
        assert(status_step(h[j - 1], h[j - 1 + 1]));
        assert(j - 1 + 1 == j);
    }
}

proof fn lemma_funded_before(h: Seq<PaymentStatus>, j: int) -> (i: int)
    requires
        0 <= j < h.len(),
        h[0] == PaymentStatus::Initialized,
        h[j] == PaymentStatus::Settled,
        forall|k: int| 0 <= k < h.len() - 1 ==> status_step(h[k], #[trigger] h[k + 1]),
    ensures
        0 <= i < j,
        h[i] == PaymentStatus::Funded,
    decreases j,
{
    assert(j > 0);
    assert(status_step(h[j - 1], h[j - 1 + 1]));
    assert(j - 1 + 1 == j);
    if h[j - 1] == PaymentStatus::Funded {
        j - 1
    } else {
        lemma_funded_before(h, j - 1)
    }
}

/// Gap capital comes back whole, and only to the borrower who locked it: an
/// investment of `amount` is paid back in full to its borrower from the end
/// of its lock, refused before, refused to anyone else, and refused once
/// withdrawn.
pub proof fn law_investment_round_trip(
    config: Config,
    borrower: Pubkey,
    other: Pubkey,
    amount: u64,
    invested_at: i64,
    now: i64,
)
    requires
        other != borrower,
    ensures
        investment_withdrawal(
            locked_investment(borrower, amount, invested_at),
            config,
            borrower,
            now,
        ) == if now >= invested_at + config.invest_lock_secs {
            Ok::<u64, CustomError>(amount)
        } else {
            Err::<u64, CustomError>(CustomError::NotMature)
        },
        investment_withdrawal(locked_investment(borrower, amount, invested_at), config, other, now)
            == Err::<u64, CustomError>(CustomError::Unauthorized),
        investment_withdrawal(
            withdrawn(locked_investment(borrower, amount, invested_at)),
            config,
            borrower,
            now,
        ) == Err::<u64, CustomError>(CustomError::InvalidState),
{
}

/// After the owner bootstraps the config, the signer owns it and a payment in
/// each of the three stablecoins earns the discount set for it (the three
/// mints being distinct).
pub proof fn law_initial_discounts_apply(
    owner: Pubkey,
    usd_star_bps: u16,
    usdc_bps: u16,
    usdt_bps: u16,
    invest_lock_secs: i64,
    settle_wait_secs: i64,
    usdc_mint: Pubkey,
    usdt_mint: Pubkey,
    usd_star_mint: Pubkey,
)
    requires
        usdc_mint != usdt_mint,
        usdc_mint != usd_star_mint,
        usdt_mint != usd_star_mint,
    ensures
        ({
            let c = initial_config(
                owner,
                usd_star_bps,
                usdc_bps,
                usdt_bps,
                invest_lock_secs,
                settle_wait_secs,
            );
            &&& c.owner == owner
            &&& c.invest_lock_secs == invest_lock_secs
            &&& c.settle_wait_secs == settle_wait_secs
            &&& token_discount(c, usdc_mint, usdt_mint, usd_star_mint, usdc_mint) == Some(usdc_bps)
            &&& token_discount(c, usdc_mint, usdt_mint, usd_star_mint, usdt_mint) == Some(usdt_bps)
            &&& token_discount(c, usdc_mint, usdt_mint, usd_star_mint, usd_star_mint) == Some(
                usd_star_bps,
            )
        }),
{
}

/// An accepted config update takes effect: a payment in each of the three
/// stablecoins earns the new discount (the three mints being distinct), the
/// settlement wait is the new one, and the owner and the investment lock are
/// kept.
pub proof fn law_updated_discounts_apply(
    config: Config,
    usdc_bps: u16,
    usdt_bps: u16,
    usd_star_bps: u16,
    settle_wait_secs: i64,
    usdc_mint: Pubkey,
    usdt_mint: Pubkey,
    usd_star_mint: Pubkey,
)
    requires
        usdc_mint != usdt_mint,
        usdc_mint != usd_star_mint,
        usdt_mint != usd_star_mint,
    ensures
        ({
            let c = updated_config(config, usdc_bps, usdt_bps, usd_star_bps, settle_wait_secs);
            &&& c.owner == config.owner
            &&& c.invest_lock_secs == config.invest_lock_secs
            &&& c.settle_wait_secs == settle_wait_secs
            &&& token_discount(c, usdc_mint, usdt_mint, usd_star_mint, usdc_mint) == Some(usdc_bps)
            &&& token_discount(c, usdc_mint, usdt_mint, usd_star_mint, usdt_mint) == Some(usdt_bps)
            &&& token_discount(c, usdc_mint, usdt_mint, usd_star_mint, usd_star_mint) == Some(
                usd_star_bps,
            )
        }),
{
}

/// The first deposit into a pool without shares mints one share per token.
pub proof fn law_first_deposit_one_to_one(total_liquidity: u64, amount: u64)
    ensures
        deposit_shares(total_liquidity, 0, amount) == amount,
{
}

/// A deposit into a pool that has shares never lowers the value of a share:
/// liquidity per share after the deposit is at least what it was before.
pub proof fn law_deposit_keeps_share_value(pool: LiquidityPool, amount: u64)
    requires
        pool.total_shares > 0,
        deposit_fits(pool, amount),
    ensures
        deposited(pool, amount).total_liquidity * pool.total_shares >= pool.total_liquidity
            * deposited(pool, amount).total_shares,
{
    let l = pool.total_liquidity as int;
    let s = pool.total_shares as int;
    let a = amount as int;
    let minted = a * s / l;
    lemma_floor_mul_le(a * s, l);
    assert((l + a) * s >= l * (s + minted)) by (nonlinear_arith)
        requires
            l * minted <= a * s,
    ;
}

/// Redeeming shares never lowers the value of the shares that stay.
pub proof fn law_redeem_keeps_share_value(pool: LiquidityPool, shares: u64)
    requires
        redeem_fits(pool, shares),
    ensures
        redeemed(pool, shares).total_liquidity * pool.total_shares >= pool.total_liquidity
            * redeemed(pool, shares).total_shares,
{
    let l = pool.total_liquidity as int;
    let s = pool.total_shares as int;
    let x = shares as int;
    let paid = x * l / s;
    lemma_floor_mul_le(x * l, s);
    lemma_scaled_le(x, l, s);
    assert((l - paid) * s >= l * (s - x)) by (nonlinear_arith)
        requires
            s * paid <= x * l,
    ;
}

/// A deposit and an immediate withdrawal by a lender holding no standing
/// shares never gains: the lender is credited exactly the shares minted, the
/// withdrawal pays back at most the deposit, exactly the deposit when no
/// rounding occurs, and leaves the pool with its shares as before and its
/// liquidity raised by what was not paid back. This holds in a pool that has
/// both shares and liquidity, or neither.
pub proof fn law_deposit_withdraw_round_trip(
    pool: LiquidityPool,
    deposit: BorrowerDeposit,
    owner: Pubkey,
    amount: u64,
    now: i64,
    bump: u8,
)
    requires
        amount > 0,
        deposit_fits(pool, amount),
        pool.total_shares == 0 && pool.total_liquidity == 0 || pool.total_shares > 0
            && pool.total_liquidity > 0,
        standing_shares(deposit) == 0,
        redeem_fits(
            deposited(pool, amount),
            deposit_shares(pool.total_liquidity, pool.total_shares, amount) as u64,
        ),
    ensures
        ({
            let minted = deposit_shares(pool.total_liquidity, pool.total_shares, amount) as u64;
            let after = deposited(pool, amount);
            let paid_back = redeem_amount(after.total_liquidity, after.total_shares, minted);
            &&& credited(deposit, owner, minted, now, bump).shares == minted
            &&& paid_back <= amount
            &&& (pool.total_shares == 0 || (amount * pool.total_shares) % (
            pool.total_liquidity as int) == 0) ==> paid_back == amount
            &&& redeemed(after, minted).total_shares == pool.total_shares
            &&& redeemed(after, minted).total_liquidity == pool.total_liquidity + amount
                - paid_back
        }),
{
    let l = pool.total_liquidity as int;
    let s = pool.total_shares as int;
    let a = amount as int;
    if s == 0 {
        lemma_div_by_multiple(a, a);
    } else {
        let minted = a * s / l;
        lemma_floor_mul_le(a * s, l);
        let s2 = s + minted;
        let l2 = l + a;
        assert(minted * l2 <= a * s2) by (nonlinear_arith)
            requires
                l * minted <= a * s,
                l2 == l + a,
                s2 == s + minted,
        ;
        lemma_div_is_ordered(minted * l2, a * s2, s2);
        lemma_div_by_multiple(a, s2);
        assert(a * s2 == s2 * a) by (nonlinear_arith);
        if (a * s) % l == 0 {
            lemma_fundamental_div_mod(a * s, l);
            assert(minted * l2 == a * s2) by (nonlinear_arith)
                requires
                    l * minted == a * s,
                    l2 == l + a,
                    s2 == s + minted,
            ;
        }
        lemma_scaled_le(minted, l2, s2);
    }
}

/// A gap allocation moves liquidity from free to allocated: their sum is
/// unchanged, and the shares burnt are at most those outstanding.
pub proof fn law_allocation_conserves_liquidity(pool: LiquidityPool, gap_amount: u64)
    requires
        allocation_fits(pool, gap_amount),
        free_liquidity(pool) >= gap_amount,
    ensures
        allocated(pool, gap_amount).total_liquidity + allocated(pool, gap_amount).allocated
            == pool.total_liquidity + pool.allocated,
        gap_share_cost(pool.total_liquidity, pool.total_shares, gap_amount) <= pool.total_shares,
{
    lemma_scaled_le(
        gap_amount as int,
        pool.total_shares as int,
        pool.total_liquidity as int,
    );
}

/// A lender who withdrew and deposits again holds only the new shares; an
/// active lender's shares add up.
pub proof fn law_redeposit_after_withdrawal(
    deposit: BorrowerDeposit,
    owner: Pubkey,
    shares: u64,
    now: i64,
    bump: u8,
)
    requires
        deposit.shares + shares <= u64::MAX,
    ensures
        credited(
            BorrowerDeposit { status: DepositStatus::Withdrawn, ..deposit },
            owner,
            shares,
            now,
            bump,
        ).shares == shares,
        credited(
            BorrowerDeposit { status: DepositStatus::Active, ..deposit },
            owner,
            shares,
            now,
            bump,
        ).shares == deposit.shares + shares,
{
}

/// The swap instruction data carries its arguments exactly: after the tag come
/// the two token indices, then two little-endian words that read back as the
/// amount in and the least amount out.
pub proof fn law_swap_data_layout(payload: SwapExactInHintlessData)
    ensures
        swap_data(payload).len() == 26,
        swap_data(payload).subrange(0, 8) == swap_exact_in_discriminator(),
        swap_data(payload)[8] == payload.in_index,
        swap_data(payload)[9] == payload.out_index,
        spec_u64_from_le_bytes(swap_data(payload).subrange(10, 18)) == payload.exact_amount_in,
        spec_u64_from_le_bytes(swap_data(payload).subrange(18, 26)) == payload.min_amount_out,
{
    lemma_auto_spec_u64_to_from_le_bytes();
    let d = swap_data(payload);
    assert(spec_u64_to_le_bytes(payload.exact_amount_in).len() == 8);
    assert(spec_u64_to_le_bytes(payload.min_amount_out).len() == 8);
    assert(d.subrange(0, 8) =~= swap_exact_in_discriminator());
    assert(d.subrange(10, 18) =~= spec_u64_to_le_bytes(payload.exact_amount_in));
    assert(d.subrange(18, 26) =~= spec_u64_to_le_bytes(payload.min_amount_out));
}

/// Distinct errors are reported under distinct codes.
pub proof fn law_error_codes_distinct(a: CustomError, b: CustomError)
    requires
        a != b,
    ensures
        6000 + error_index(a) != 6000 + error_index(b),
{
}

} // verus!

verus! {

/// A payment in any token other than USD* is swapped into USD*, and a
/// payment in USD* is not: the plan has a swap exactly when the paid mint is
/// not the USD* mint. The swap approves and trades exactly the charged
/// amount, with the swap tag and the charged amount in its data, and the
/// payment's vault signs it as a writable account.
pub proof fn law_payment_swaps_every_other_token(
    ctx: ExecutePayment,
    plan: PaymentPlan,
    pay_mint: Pubkey,
    charged: u64,
    in_index: u8,
    out_index: u8,
    min_out: u64,
)
    requires
        is_payment_plan(ctx, plan, pay_mint, charged, in_index, out_index, min_out),
    ensures
        plan.transfer_amount == charged,
        plan.swap is None <==> pay_mint == ctx.usd_star_mint,
        plan.swap matches Some(swap) ==> {
            &&& swap.approve_amount == charged
            &&& swap.instruction.data@.len() == 26
            &&& swap.instruction.data@.subrange(0, 8) == seq![
                104u8,
                104u8,
                131u8,
                86u8,
                161u8,
                189u8,
                180u8,
                216u8,
            ]
            &&& swap.instruction.data@[8] == in_index
            &&& swap.instruction.data@[9] == out_index
            &&& spec_u64_from_le_bytes(swap.instruction.data@.subrange(10, 18)) == charged
            &&& spec_u64_from_le_bytes(swap.instruction.data@.subrange(18, 26)) == min_out
            &&& swap.instruction.program_id == ctx.pool_program
            &&& swap.instruction.accounts@.len() == 9
            &&& swap.instruction.accounts@[6] == (AccountEntry {
                key: ctx.vault_in,
                is_signer: true,
                is_writable: true,
            })
        },
{
    if pay_mint != ctx.usd_star_mint {
        law_swap_data_layout(
            SwapExactInHintlessData {
                in_index,
                out_index,
                exact_amount_in: charged,
                min_amount_out: min_out,
            },
        );
    }
}

/// A listed payment in a supported token is accepted whatever else it
/// holds, and is charged its price less `price * bps / 10 000`; a discount of
/// the whole price or more charges nothing. A payment that is not listed is
/// refused, and a token without a discount is refused.
pub proof fn law_payment_acceptance(payment: Payment, bps: u16)
    ensures
        payment.status == PaymentStatus::Initialized && bps <= 10_000 ==> payment_acceptance(
            payment,
            Some(bps),
        ) == Ok::<u64, CustomError>((payment.amount - payment.amount * bps / 10_000) as u64),
        payment.status == PaymentStatus::Initialized && bps >= 10_000 ==> payment_acceptance(
            payment,
            Some(bps),
        ) == Ok::<u64, CustomError>(0),
        payment.status != PaymentStatus::Initialized ==> payment_acceptance(payment, Some(bps))
            == Err::<u64, CustomError>(CustomError::InvalidState),
        payment_acceptance(payment, None) == Err::<u64, CustomError>(CustomError::UnsupportedToken),
{
    law_discounted_price(payment.amount, bps);
    if bps <= 10_000 {
        lemma_scaled_le(bps as int, payment.amount as int, 10_000);
        assert(payment.amount * bps == bps * payment.amount) by (nonlinear_arith);
    }
}

/// Every account the stable swap moves tokens through is writable: the two
/// traders, and each pool vault that is given, right after the traders, in
/// the order in-vault then out-vault; the payer signs; nothing else is added.
pub proof fn law_stable_swap_accounts_writable(ctx: SwapStable)
    ensures
        ({
            let accounts = stable_swap_accounts(ctx);
            let vaults: int = (if ctx.in_vault is Some {
                1int
            } else {
                0int
            }) + (if ctx.out_vault is Some {
                1int
            } else {
                0int
            });
            &&& accounts.len() == 9 + vaults
            &&& accounts[3] == (AccountEntry {
                key: ctx.in_trader,
                is_signer: false,
                is_writable: true,
            })
            &&& accounts[4] == (AccountEntry {
                key: ctx.out_trader,
                is_signer: false,
                is_writable: true,
            })
            &&& ctx.in_vault matches Some(v) ==> accounts[5] == (AccountEntry {
                key: v,
                is_signer: false,
                is_writable: true,
            })
            &&& ctx.out_vault matches Some(v) ==> accounts[4 + vaults] == (AccountEntry {
                key: v,
                is_signer: false,
                is_writable: true,
            })
            &&& accounts[6 + vaults] == (AccountEntry {
                key: ctx.payer,
                is_signer: true,
                is_writable: true,
            })
        }),
{
}

/// A discount is accepted by the owner's update exactly when it is at most
/// 10 000 basis points, the whole price.
pub proof fn law_update_accepts_discounts_up_to_whole_price(bps: u16)
    ensures
        valid_bps(bps) <==> bps <= 10_000,
{
}

/// A funded payment settles exactly when `now` is past its start plus the
/// configured settlement wait, whatever gap capital is matched to it, and
/// then pays the seller the principal and half of the 4 % yield and the
/// borrower the other half.
pub proof fn law_settlement_maturity(payment: Payment, config: Config, now: i64, gap_amount: u64, gap_shares: u64)
    requires
        payment.status == PaymentStatus::Funded,
    ensures
        settlement(payment, config, now) is Ok <==> now > payment.start_ts
            + config.settle_wait_secs,
        settlement(Payment { gap_amount, gap_shares, ..payment }, config, now) == settlement(
            payment,
            config,
            now,
        ),
        now > payment.start_ts + config.settle_wait_secs ==> settlement(payment, config, now) == Ok::<
            (int, int),
            CustomError,
        >(
            (
                (payment.paid_amount * 104 / 100 - payment.paid_amount) / 2 + payment.paid_amount,
                (payment.paid_amount * 104 / 100 - payment.paid_amount) / 2,
            ),
        ),
{
}

/// Gap capital is accepted in USD*, USDC or USDT and in no other token,
/// whatever the investment record held before.
pub proof fn law_gap_capital_tokens(ctx: InvestGap, earlier: Investment)
    ensures
        accepted_token(ctx) <==> (ctx.source_mint == ctx.usd_star_mint || ctx.source_mint
            == ctx.usdc_mint || ctx.source_mint == ctx.usdt_mint),
        accepted_token(InvestGap { investment: earlier, ..ctx }) == accepted_token(ctx),
{
}

} // verus!

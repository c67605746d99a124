use crate::cpi::{
    readonly, signer_seeds, swap_data, vault_signer_seeds, writable, AccountEntry, CpiInstruction,
    SwapCall, SwapExactInHintlessData,
};
use crate::discount::{find_discount, lemma_table_lookup, token_discount};
use crate::error::CustomError;
use crate::keys::keys_equal;
use crate::laws::law_swap_data_layout;
use crate::state::{status_step, Config, Payment, PaymentStatus};
use anchor_lang::prelude::Pubkey;
use vstd::bytes::spec_u64_from_le_bytes;
use vstd::prelude::*;
use vstd::string::StringSliceAdditionalSpecFns;

verus! {

/// What `execute_payment` reads and writes: the payment (and its address), the
/// config with the mints its discounts belong to, the buyer's vault for the
/// payment, and the accounts of the Numeraire pool that swaps into USD*.
pub struct ExecutePayment {
    pub payment_key: Pubkey,
    pub payment: Payment,
    pub config: Config,
    pub usdc_mint: Pubkey,
    pub usdt_mint: Pubkey,
    pub usd_star_mint: Pubkey,
    pub vault_in: Pubkey,
    pub vault_in_bump: u8,
    pub pool: Pubkey,
    pub pool_program: Pubkey,
    pub in_mint: Pubkey,
    pub out_mint: Pubkey,
    pub in_trader: Pubkey,
    pub out_trader: Pubkey,
    pub numeraire_config: Pubkey,
    pub token_program: Pubkey,
    pub token_2022_program: Pubkey,
}

/// The transfers and calls that carry out a payment: `transfer_amount` moves
/// from the buyer to the payment's vault, then, unless it is USD*, `swap`
/// trades it into USD*.
pub struct PaymentPlan {
    pub transfer_amount: u64,
    pub swap: Option<SwapCall>,
}

/// The accounts of the swap, in the order the Numeraire pool takes them; the
/// payment's vault signs.
pub open spec fn payment_swap_accounts(ctx: ExecutePayment) -> Seq<AccountEntry> {
    seq![
        writable(ctx.pool, false),
        writable(ctx.in_mint, false),
        writable(ctx.out_mint, false),
        writable(ctx.in_trader, false),
        writable(ctx.out_trader, false),
        readonly(ctx.numeraire_config, false),
        writable(ctx.vault_in, true),
        readonly(ctx.token_program, false),
        readonly(ctx.token_2022_program, false),
    ]
}

/// The discount a payment in `pay_mint` earns under the context's config.
pub open spec fn payment_discount(ctx: ExecutePayment, pay_mint: Pubkey) -> Option<u16> {
    token_discount(ctx.config, ctx.usdc_mint, ctx.usdt_mint, ctx.usd_star_mint, pay_mint)
}

/// The payment once paid: the mint, the amount and the discount are recorded,
/// the settlement period starts at `now`, status `Funded`.
pub open spec fn funded(payment: Payment, pay_mint: Pubkey, pay_amount: u64, discount_bps: u16, now: i64) -> Payment {
    Payment {
        paid_mint: pay_mint,
        paid_amount: pay_amount,
        discount_bps,
        start_ts: now,
        status: PaymentStatus::Funded,
        ..payment
    }
}

/// The plan is the one for paying `charged` in `pay_mint`.
pub open spec fn is_payment_plan(
    ctx: ExecutePayment,
    plan: PaymentPlan,
    pay_mint: Pubkey,
    charged: u64,
    in_index: u8,
    out_index: u8,
    min_out: u64,
) -> bool {
    &&& plan.transfer_amount == charged
    &&& pay_mint == ctx.usd_star_mint ==> plan.swap is None
    &&& pay_mint != ctx.usd_star_mint ==> (plan.swap matches Some(swap) && {
        &&& swap.approve_amount == charged
        &&& swap.signer_seeds.deep_view() == signer_seeds(
            "vault".spec_bytes(),
            ctx.payment_key,
            ctx.vault_in_bump,
        )
        &&& swap.instruction.program_id == ctx.pool_program
        &&& swap.instruction.accounts@ == payment_swap_accounts(ctx)
        &&& swap.instruction.data@ == swap_data(
            SwapExactInHintlessData {
                in_index,
                out_index,
                exact_amount_in: charged,
                min_amount_out: min_out,
            },
        )
    })
}

/// The price after a discount of `bps` basis points, rounded in the seller's
/// favour; a discount of the whole price or more leaves nothing to pay.
pub open spec fn discounted_price(price: u64, bps: u16) -> int {
    if price * bps / 10_000 >= price {
        0
    } else {
        price - price * bps / 10_000
    }
}

/// Whether a payment in a token with discount `discount` is accepted: the
/// refusal, or the discounted price charged.
pub open spec fn payment_acceptance(payment: Payment, discount: Option<u16>) -> Result<u64, CustomError> {
    match discount {
        None => Err(CustomError::UnsupportedToken),
        Some(bps) => if payment.status != PaymentStatus::Initialized {
            Err(CustomError::InvalidState)
        } else {
            Ok(discounted_price(payment.amount, bps) as u64)
        },
    }
}

/// The buyer pays for the listed product in `pay_mint` at time `now`; the
/// product's price less the token's discount is charged, whatever amount
/// `pay_amount` the buyer names. Refused, changing nothing, with
/// `UnsupportedToken` when the token earns no discount, else with
/// `InvalidState` when the payment is not `Initialized`. Otherwise the
/// payment is recorded as funded and the plan says what to transfer and swap.
pub fn execute_payment(
    ctx: &mut ExecutePayment,
    pay_mint: Pubkey,
    pay_amount: u64,
    in_index: u8,
    out_index: u8,
    min_out: u64,
    now: i64,
) -> (r: Result<PaymentPlan, CustomError>)
    ensures
        status_step(old(ctx).payment.status, final(ctx).payment.status),
        r matches Ok(plan) ==> (plan.swap is None <==> pay_mint == old(ctx).usd_star_mint),
        r matches Ok(plan) ==> (plan.swap matches Some(swap) ==> swap.approve_amount
            == plan.transfer_amount && spec_u64_from_le_bytes(
            swap.instruction.data@.subrange(10, 18),
        ) == plan.transfer_amount && swap.instruction.data@.len() == 26),
        (match payment_acceptance(
            old(ctx).payment,
            payment_discount(*old(ctx), pay_mint),
        ) {
            Err(e) => r == Err::<PaymentPlan, CustomError>(e) && *final(ctx) == *old(ctx),
            Ok(charged) => {
                &&& r is Ok
                &&& is_payment_plan(
                    *old(ctx),
                    r->Ok_0,
                    pay_mint,
                    charged,
                    in_index,
                    out_index,
                    min_out,
                )
                &&& *final(ctx) == (ExecutePayment {
                    payment: funded(
                        old(ctx).payment,
                        pay_mint,
                        charged,
                        payment_discount(*old(ctx), pay_mint).unwrap(),
                        now,
                    ),
                    ..*old(ctx)
                })
            },
        }),
{
    let discounts = ctx.config.discounts(&ctx.usdc_mint, &ctx.usdt_mint, &ctx.usd_star_mint);
    proof {
        lemma_table_lookup(ctx.config, ctx.usdc_mint, ctx.usdt_mint, ctx.usd_star_mint, pay_mint);
    }
    let discount_bps = match find_discount(&discounts, &pay_mint) {
        Ok(bps) => bps,
        Err(e) => {
            return Err(e);
        },
    };
    if ctx.payment.status != PaymentStatus::Initialized {
        return Err(CustomError::InvalidState);
    }
    let price = ctx.payment.amount;
    proof {
        assert(price * discount_bps <= u64::MAX * u16::MAX) by (nonlinear_arith);
    }
    let product: u128 = (price as u128) * (discount_bps as u128);
    let discount: u128 = product / 10_000;
    let charged: u64 = if discount >= price as u128 {
        0
    } else {
        price - (discount as u64)
    };
    let swap = if !keys_equal(&pay_mint, &ctx.usd_star_mint) {
        let seeds = vault_signer_seeds("vault", &ctx.payment_key, ctx.vault_in_bump);
        let payload = SwapExactInHintlessData {
            in_index,
            out_index,
            exact_amount_in: charged,
            min_amount_out: min_out,
        };
        let mut accounts: Vec<AccountEntry> = Vec::new();
        accounts.push(AccountEntry::new(ctx.pool, false));
        accounts.push(AccountEntry::new(ctx.in_mint, false));
        accounts.push(AccountEntry::new(ctx.out_mint, false));
        accounts.push(AccountEntry::new(ctx.in_trader, false));
        accounts.push(AccountEntry::new(ctx.out_trader, false));
        accounts.push(AccountEntry::new_readonly(ctx.numeraire_config, false));
        accounts.push(AccountEntry::new(ctx.vault_in, true));
        accounts.push(AccountEntry::new_readonly(ctx.token_program, false));
        accounts.push(AccountEntry::new_readonly(ctx.token_2022_program, false));
        assert(accounts@ =~= payment_swap_accounts(*ctx));
        proof {
            law_swap_data_layout(payload);
        }
        let instruction = CpiInstruction {
            program_id: ctx.pool_program,
            accounts,
            data: payload.instruction_data(),
        };
        Some(SwapCall { approve_amount: charged, signer_seeds: seeds, instruction })
    } else {
        None
    };
    let payment = &mut ctx.payment;
    payment.paid_mint = pay_mint;
    payment.paid_amount = charged;
    payment.discount_bps = discount_bps;
    payment.start_ts = now;
    payment.status = PaymentStatus::Funded;
    Ok(PaymentPlan { transfer_amount: charged, swap })
}

} // verus!

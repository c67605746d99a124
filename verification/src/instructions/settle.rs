use crate::cpi::{signer_seeds, vault_signer_seeds};
use crate::error::CustomError;
use crate::keys::keys_equal;
use crate::state::{status_step, Config, Payment, PaymentStatus};
use anchor_lang::prelude::Pubkey;
use vstd::prelude::*;
use vstd::string::StringSliceAdditionalSpecFns;

verus! {

/// What `settle` reads and writes: the payment (and its address), the config,
/// the bump of the payment's USD* vault, the signer, and the owners of the
/// token accounts the payouts go to.
pub struct Settle {
    pub payment_key: Pubkey,
    pub payment: Payment,
    pub config: Config,
    pub vault_bump: u8,
    pub seller: Pubkey,
    pub seller_token_owner: Pubkey,
    pub borrower_token_owner: Pubkey,
}

/// The signer is the payment's seller.
pub open spec fn signed_by_seller(ctx: Settle) -> bool {
    ctx.seller == ctx.payment.seller
}

/// The payouts go to accounts of the payment's seller and borrower.
pub open spec fn pays_the_parties(ctx: Settle) -> bool {
    ctx.seller_token_owner == ctx.payment.seller && ctx.borrower_token_owner
        == ctx.payment.borrower
}

/// What a settlement pays out of the payment's vault, and the seeds that sign for it.
pub struct SettlePlan {
    pub seller_share: u64,
    pub borrower_share: u64,
    pub signer_seeds: Vec<Vec<u8>>,
}

/// What the paid amount has grown to at settlement: 104 % of it, rounded down.
pub open spec fn settlement_total(paid: u64) -> int {
    paid * 104 / 100
}

/// The yield earned on the paid amount.
pub open spec fn settlement_interest(paid: u64) -> int {
    settlement_total(paid) - paid
}

/// The seller's payout: the principal and half the yield, rounded down.
pub open spec fn seller_payout(paid: u64) -> int {
    settlement_interest(paid) / 2 + paid
}

/// The borrower's payout: half the yield, rounded down.
pub open spec fn borrower_payout(paid: u64) -> int {
    settlement_interest(paid) / 2
}

/// The earliest moment, exclusive, at which a payment can settle.
pub open spec fn settle_after(payment: Payment, config: Config) -> int {
    payment.start_ts + config.settle_wait_secs
}

/// The payment once settled.
pub open spec fn settled(payment: Payment) -> Payment {
    Payment { status: PaymentStatus::Settled, ..payment }
}

/// What settling `payment` at `now` comes to: the refusal, or the seller's and
/// the borrower's payouts.
pub open spec fn settlement(payment: Payment, config: Config, now: i64) -> Result<(int, int), CustomError> {
    if payment.status != PaymentStatus::Funded {
        Err(CustomError::InvalidState)
    } else if now <= settle_after(payment, config) {
        Err(CustomError::NotMature)
    } else {
        Ok((seller_payout(payment.paid_amount), borrower_payout(payment.paid_amount)))
    }
}

/// The seller settles a funded payment at time `now`. Refused, changing
/// nothing, with `Unauthorized` when the signer is not the seller, else with
/// `InvalidRecipient` when a payout account belongs to someone other than the
/// seller or the borrower, else with `InvalidState` when the payment is not
/// `Funded`, else with `NotMature` unless `now` is past the settlement wait.
/// Otherwise the payment is settled, and the plan gives the two payouts and
/// the seeds of the payment's vault, which signs for them.
pub fn settle(ctx: &mut Settle, now: i64) -> (r: Result<SettlePlan, CustomError>)
    requires
        signed_by_seller(*old(ctx)) && pays_the_parties(*old(ctx)) && old(ctx).payment.status
            == PaymentStatus::Funded ==> i64::MIN <= settle_after(
            old(ctx).payment,
            old(ctx).config,
        ) <= i64::MAX,
        signed_by_seller(*old(ctx)) && pays_the_parties(*old(ctx)) && old(ctx).payment.status
            == PaymentStatus::Funded && now > settle_after(
            old(ctx).payment,
            old(ctx).config,
        ) ==> old(ctx).payment.paid_amount * 104 <= u64::MAX,
    ensures
        status_step(old(ctx).payment.status, final(ctx).payment.status),
        r is Ok ==> {
            &&& old(ctx).seller == old(ctx).payment.seller
            &&& old(ctx).seller_token_owner == old(ctx).payment.seller
            &&& old(ctx).borrower_token_owner == old(ctx).payment.borrower
            &&& old(ctx).payment.status == PaymentStatus::Funded
            &&& final(ctx).payment.status == PaymentStatus::Settled
        },
        r matches Ok(plan) ==> {
            &&& plan.borrower_share == (old(ctx).payment.paid_amount * 104 / 100
                - old(ctx).payment.paid_amount) / 2
            &&& plan.seller_share == old(ctx).payment.paid_amount + plan.borrower_share
        },
        signed_by_seller(*old(ctx)) && pays_the_parties(*old(ctx)) && old(ctx).payment.status
            == PaymentStatus::Funded ==> (r is Ok <==> now > old(ctx).payment.start_ts
            + old(ctx).config.settle_wait_secs),
        !signed_by_seller(*old(ctx)) ==> r == Err::<SettlePlan, CustomError>(
            CustomError::Unauthorized,
        ) && *final(ctx) == *old(ctx),
        signed_by_seller(*old(ctx)) && !pays_the_parties(*old(ctx)) ==> r == Err::<
            SettlePlan,
            CustomError,
        >(CustomError::InvalidRecipient) && *final(ctx) == *old(ctx),
        signed_by_seller(*old(ctx)) && pays_the_parties(*old(ctx)) ==> (match r {
            Ok(plan) => settlement(old(ctx).payment, old(ctx).config, now) == Ok::<
                (int, int),
                CustomError,
            >((plan.seller_share as int, plan.borrower_share as int)),
            Err(e) => settlement(old(ctx).payment, old(ctx).config, now) == Err::<
                (int, int),
                CustomError,
            >(e),
        }),
        signed_by_seller(*old(ctx)) && pays_the_parties(*old(ctx)) && old(ctx).payment.status
            != PaymentStatus::Funded ==> r == Err::<SettlePlan, CustomError>(
            CustomError::InvalidState,
        ) && *final(ctx) == *old(ctx),
        signed_by_seller(*old(ctx)) && pays_the_parties(*old(ctx)) && old(ctx).payment.status
            == PaymentStatus::Funded && now <= settle_after(
            old(ctx).payment,
            old(ctx).config,
        ) ==> r == Err::<SettlePlan, CustomError>(CustomError::NotMature) && *final(ctx)
            == *old(ctx),
        signed_by_seller(*old(ctx)) && pays_the_parties(*old(ctx)) && old(ctx).payment.status
            == PaymentStatus::Funded && now > settle_after(old(ctx).payment, old(ctx).config) ==> {
            &&& r is Ok
            &&& r->Ok_0.seller_share == seller_payout(old(ctx).payment.paid_amount)
            &&& r->Ok_0.borrower_share == borrower_payout(old(ctx).payment.paid_amount)
            &&& r->Ok_0.signer_seeds.deep_view() == signer_seeds(
                "vault".spec_bytes(),
                old(ctx).payment_key,
                old(ctx).vault_bump,
            )
            &&& *final(ctx) == (Settle {
                payment: settled(old(ctx).payment),
                ..*old(ctx)
            })
        },
{
    if !keys_equal(&ctx.seller, &ctx.payment.seller) {
        return Err(CustomError::Unauthorized);
    }
    if !(keys_equal(&ctx.seller_token_owner, &ctx.payment.seller) && keys_equal(
        &ctx.borrower_token_owner,
        &ctx.payment.borrower,
    )) {
        return Err(CustomError::InvalidRecipient);
    }
    if ctx.payment.status != PaymentStatus::Funded {
        return Err(CustomError::InvalidState);
    }
    if !(now > ctx.payment.start_ts + ctx.config.settle_wait_secs) {
        return Err(CustomError::NotMature);
    }
    let paid = ctx.payment.paid_amount;
    let total = paid * 104 / 100;
    assert(total >= paid);
    let interest = total - paid;
    let seller_share = interest / 2 + paid;
    let borrower_share = interest / 2;
    let seeds = vault_signer_seeds("vault", &ctx.payment_key, ctx.vault_bump);
    ctx.payment.status = PaymentStatus::Settled;
    Ok(SettlePlan { seller_share, borrower_share, signer_seeds: seeds })
}

} // verus!

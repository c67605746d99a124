use crate::error::CustomError;
use crate::keys::{default_key, key_bytes};
use crate::state::{Config, Payment, PaymentStatus};
use anchor_lang::prelude::Pubkey;
use vstd::prelude::*;

verus! {

/// What `initialize_payment` reads and writes: the seller, the config and the new payment.
pub struct InitializePayment {
    pub seller: Pubkey,
    pub config: Config,
    pub payment: Payment,
}

/// A key whose bytes are all zero, as `Pubkey::default()` makes it.
pub open spec fn is_zero_key(k: Pubkey) -> bool {
    key_bytes(k) == Seq::new(32, |_i: int| 0u8)
}

/// The payment after `seller` lists a product at `price`: no discount and
/// nothing paid yet, no gap capital, status `Initialized`. The paid mint is
/// reset to the zero key; the other fields are kept.
pub open spec fn listed(payment: Payment, seller: Pubkey, price: u64, paid_mint: Pubkey) -> Payment {
    Payment {
        seller,
        discount_bps: 0,
        amount: price,
        paid_amount: 0,
        paid_mint,
        status: PaymentStatus::Initialized,
        gap_amount: 0,
        gap_shares: 0,
        ..payment
    }
}

/// Lists a product at `price`. Refused with `InputTooSmall`, changing
/// nothing, when the price is zero.
pub fn initialize_payment(ctx: &mut InitializePayment, price: u64) -> (r: Result<(), CustomError>)
    ensures
        price > 0 ==> r is Ok && final(ctx).payment.amount == price && final(ctx).payment.seller
            == old(ctx).seller && final(ctx).payment.status == PaymentStatus::Initialized
            && final(ctx).payment.paid_amount == 0 && final(ctx).payment.discount_bps == 0
            && final(ctx).payment.gap_amount == 0 && final(ctx).payment.gap_shares == 0,
        final(ctx).seller == old(ctx).seller,
        final(ctx).config == old(ctx).config,
        price == 0 ==> r == Err::<(), CustomError>(CustomError::InputTooSmall) && final(ctx).payment
            == old(ctx).payment,
        price > 0 ==> {
            &&& r == Ok::<(), CustomError>(())
            &&& is_zero_key(final(ctx).payment.paid_mint)
            &&& final(ctx).payment == listed(
                old(ctx).payment,
                old(ctx).seller,
                price,
                final(ctx).payment.paid_mint,
            )
        },
{
    if !(price > 0) {
        return Err(CustomError::InputTooSmall);
    }
    let payment = &mut ctx.payment;
    payment.seller = ctx.seller;
    payment.discount_bps = 0;
    payment.amount = price;
    payment.paid_amount = 0;
    payment.paid_mint = default_key();
    payment.status = PaymentStatus::Initialized;
    payment.gap_amount = 0;
    payment.gap_shares = 0;
    Ok(())
}

} // verus!

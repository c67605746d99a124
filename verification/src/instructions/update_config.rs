use crate::error::CustomError;
use crate::keys::keys_equal;
use crate::state::Config;
use anchor_lang::prelude::Pubkey;
use vstd::prelude::*;

verus! {

/// The largest discount: 10 000 basis points, the whole price.
pub const MAX_BPS: u16 = 10_000;

/// A discount is valid when it is at most the whole price.
pub open spec fn valid_bps(bps: u16) -> bool {
    bps <= MAX_BPS
}

/// What `update_config` reads and writes: the config and the signing owner.
pub struct UpdateConfig {
    pub config: Config,
    pub owner: Pubkey,
}

/// The config with the three discounts and the settlement wait replaced.
pub open spec fn updated_config(
    config: Config,
    usdc_bps: u16,
    usdt_bps: u16,
    usd_star_bps: u16,
    settle_wait_secs: i64,
) -> Config {
    Config {
        usdc_discount_bps: usdc_bps,
        usdt_discount_bps: usdt_bps,
        usd_star_discount_bps: usd_star_bps,
        settle_wait_secs,
        ..config
    }
}

/// The owner replaces the discounts and the settlement wait. Refused,
/// changing nothing, with `Unauthorized` when the signer is not the config's
/// owner, else with `InvalidBasisPoint` when a discount exceeds `MAX_BPS`.
pub fn update_config(
    ctx: &mut UpdateConfig,
    new_discount_usdc_bps: u16,
    new_discount_usdt_bps: u16,
    new_discount_usd_star_bps: u16,
    new_maturity_secs: i64,
) -> (r: Result<(), CustomError>)
    ensures
        final(ctx).owner == old(ctx).owner,
        old(ctx).owner == old(ctx).config.owner && new_discount_usdc_bps <= 10_000
            && new_discount_usdt_bps <= 10_000 && new_discount_usd_star_bps <= 10_000 ==> r is Ok
            && final(ctx).config.usdc_discount_bps == new_discount_usdc_bps
            && final(ctx).config.usdt_discount_bps == new_discount_usdt_bps
            && final(ctx).config.usd_star_discount_bps == new_discount_usd_star_bps
            && final(ctx).config.settle_wait_secs == new_maturity_secs,
        old(ctx).owner == old(ctx).config.owner && (new_discount_usdc_bps > 10_000
            || new_discount_usdt_bps > 10_000 || new_discount_usd_star_bps > 10_000) ==> r
            == Err::<(), CustomError>(CustomError::InvalidBasisPoint),
        old(ctx).owner != old(ctx).config.owner ==> r == Err::<(), CustomError>(
            CustomError::Unauthorized,
        ) && final(ctx).config == old(ctx).config,
        old(ctx).owner == old(ctx).config.owner && (valid_bps(new_discount_usdc_bps) && valid_bps(new_discount_usdt_bps) && valid_bps(
            new_discount_usd_star_bps,
        )) ==> r == Ok::<(), CustomError>(()) && final(ctx).config == updated_config(
            old(ctx).config,
            new_discount_usdc_bps,
            new_discount_usdt_bps,
            new_discount_usd_star_bps,
            new_maturity_secs,
        ),
        old(ctx).owner == old(ctx).config.owner && !(valid_bps(new_discount_usdc_bps) && valid_bps(new_discount_usdt_bps) && valid_bps(
            new_discount_usd_star_bps,
        )) ==> r == Err::<(), CustomError>(CustomError::InvalidBasisPoint) && final(ctx).config
            == old(ctx).config,
{
    if !keys_equal(&ctx.owner, &ctx.config.owner) {
        return Err(CustomError::Unauthorized);
    }
    if !(new_discount_usdc_bps <= MAX_BPS) {
        return Err(CustomError::InvalidBasisPoint);
    }
    if !(new_discount_usdt_bps <= MAX_BPS) {
        return Err(CustomError::InvalidBasisPoint);
    }
    if !(new_discount_usd_star_bps <= MAX_BPS) {
        return Err(CustomError::InvalidBasisPoint);
    }
    let config = &mut ctx.config;
    config.usdc_discount_bps = new_discount_usdc_bps;
    config.usdt_discount_bps = new_discount_usdt_bps;
    config.usd_star_discount_bps = new_discount_usd_star_bps;
    config.settle_wait_secs = new_maturity_secs;
    Ok(())
}

} // verus!

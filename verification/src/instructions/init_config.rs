use crate::error::CustomError;
use crate::state::Config;
use anchor_lang::prelude::Pubkey;
use vstd::prelude::*;

verus! {

/// What `init_config` reads and writes: the new config account and the signer who owns it.
pub struct InitConfig {
    pub config: Config,
    pub owner: Pubkey,
}

/// The config the owner bootstraps: the signer becomes the owner, and the
/// discounts and periods are stored as given.
pub open spec fn initial_config(
    owner: Pubkey,
    usd_star_discount_bps: u16,
    usdc_discount_bps: u16,
    usdt_discount_bps: u16,
    invest_lock_secs: i64,
    settle_wait_secs: i64,
) -> Config {
    Config {
        owner,
        usdc_discount_bps,
        usdt_discount_bps,
        usd_star_discount_bps,
        invest_lock_secs,
        settle_wait_secs,
    }
}

/// Writes the global config. The values are stored as given; none is refused.
pub fn init_config(
    ctx: &mut InitConfig,
    usd_star_discount_bps: u16,
    usdc_discount_bps: u16,
    usdt_discount_bps: u16,
    invest_lock_secs: i64,
    settle_wait_secs: i64,
) -> (r: Result<(), CustomError>)
    ensures
        r == Ok::<(), CustomError>(()),
        final(ctx).config.owner == old(ctx).owner && final(ctx).config.usd_star_discount_bps
            == usd_star_discount_bps && final(ctx).config.usdc_discount_bps == usdc_discount_bps
            && final(ctx).config.usdt_discount_bps == usdt_discount_bps
            && final(ctx).config.invest_lock_secs == invest_lock_secs
            && final(ctx).config.settle_wait_secs == settle_wait_secs,
        final(ctx).owner == old(ctx).owner,
        final(ctx).config == initial_config(
            old(ctx).owner,
            usd_star_discount_bps,
            usdc_discount_bps,
            usdt_discount_bps,
            invest_lock_secs,
            settle_wait_secs,
        ),
{
    let config = &mut ctx.config;
    config.owner = ctx.owner;
    config.usd_star_discount_bps = usd_star_discount_bps;
    config.usdc_discount_bps = usdc_discount_bps;
    config.usdt_discount_bps = usdt_discount_bps;
    config.invest_lock_secs = invest_lock_secs;
    config.settle_wait_secs = settle_wait_secs;
    Ok(())
}

} // verus!

//! Which discount a payment in a given stablecoin earns.
use crate::error::CustomError;
use crate::keys::keys_equal;
use crate::state::Config;
use anchor_lang::prelude::Pubkey;
use vstd::prelude::*;

verus! {

/// A discount, in basis points, for payments in the token `mint`.
pub struct DiscountEntry {
    pub mint: Pubkey,
    pub discount_bps: u16,
}

/// The discount of the first entry from index `i` on whose mint is `mint`, if any.
pub open spec fn discount_from(entries: Seq<DiscountEntry>, mint: Pubkey, i: int) -> Option<u16>
    decreases entries.len() - i,
{
    if i < 0 || i >= entries.len() {
        None
    } else if entries[i].mint == mint {
        Some(entries[i].discount_bps)
    } else {
        discount_from(entries, mint, i + 1)
    }
}

/// The discount of the first entry whose mint is `mint`, if any.
pub open spec fn discount_lookup(entries: Seq<DiscountEntry>, mint: Pubkey) -> Option<u16> {
    discount_from(entries, mint, 0)
}

/// The config's discount table: USDC, then USDT, then USD*.
pub open spec fn discount_table(
    config: Config,
    usdc_mint: Pubkey,
    usdt_mint: Pubkey,
    usd_star_mint: Pubkey,
) -> Seq<DiscountEntry> {
    seq![
        DiscountEntry { mint: usdc_mint, discount_bps: config.usdc_discount_bps },
        DiscountEntry { mint: usdt_mint, discount_bps: config.usdt_discount_bps },
        DiscountEntry { mint: usd_star_mint, discount_bps: config.usd_star_discount_bps },
    ]
}

/// The discount a payment in `mint` earns under `config`: that of the first of
/// USDC, USDT and USD* whose mint it is; none for any other token.
pub open spec fn token_discount(
    config: Config,
    usdc_mint: Pubkey,
    usdt_mint: Pubkey,
    usd_star_mint: Pubkey,
    mint: Pubkey,
) -> Option<u16> {
    if mint == usdc_mint {
        Some(config.usdc_discount_bps)
    } else if mint == usdt_mint {
        Some(config.usdt_discount_bps)
    } else if mint == usd_star_mint {
        Some(config.usd_star_discount_bps)
    } else {
        None
    }
}

/// The lookup in the config's table gives the per-token discount.
pub proof fn lemma_table_lookup(
    config: Config,
    usdc_mint: Pubkey,
    usdt_mint: Pubkey,
    usd_star_mint: Pubkey,
    mint: Pubkey,
)
    ensures
        discount_lookup(discount_table(config, usdc_mint, usdt_mint, usd_star_mint), mint)
            == token_discount(config, usdc_mint, usdt_mint, usd_star_mint, mint),
{
    let t = discount_table(config, usdc_mint, usdt_mint, usd_star_mint);
    reveal_with_fuel(discount_from, 4);
    assert(t.len() == 3);
}

impl Config {
    /// The discount table for the three accepted tokens, whose mints are given.
    pub fn discounts(&self, usdc_mint: &Pubkey, usdt_mint: &Pubkey, usd_star_mint: &Pubkey) -> (r:
        Vec<DiscountEntry>)
        ensures
            r@ == discount_table(*self, *usdc_mint, *usdt_mint, *usd_star_mint),
    {
        let mut r: Vec<DiscountEntry> = Vec::new();
        r.push(DiscountEntry { mint: *usdc_mint, discount_bps: self.usdc_discount_bps });
        r.push(DiscountEntry { mint: *usdt_mint, discount_bps: self.usdt_discount_bps });
        r.push(DiscountEntry { mint: *usd_star_mint, discount_bps: self.usd_star_discount_bps });
        assert(r@ =~= discount_table(*self, *usdc_mint, *usdt_mint, *usd_star_mint));
        r
    }
}

/// The discount of the first entry for `mint`; `UnsupportedToken` when there is none.
pub fn find_discount(entries: &Vec<DiscountEntry>, mint: &Pubkey) -> (r: Result<u16, CustomError>)
    ensures
        r == (match discount_lookup(entries@, *mint) {
            Some(bps) => Ok::<u16, CustomError>(bps),
            None => Err::<u16, CustomError>(CustomError::UnsupportedToken),
        }),
{
    let mut i: usize = 0;
    while i < entries.len()
        invariant
            0 <= i <= entries@.len(),
            discount_lookup(entries@, *mint) == discount_from(entries@, *mint, i as int),
        decreases entries@.len() - i,
    {
        if keys_equal(&entries[i].mint, mint) {
            return Ok(entries[i].discount_bps);
        }
        i = i + 1;
    }
    Err(CustomError::UnsupportedToken)
}

} // verus!

use crate::cpi::{
    readonly, signer_seeds, swap_data, vault_signer_seeds, writable, AccountEntry, CpiInstruction,
    SwapCall, SwapExactInHintlessData,
};
use crate::error::CustomError;
use crate::keys::keys_equal;
use anchor_lang::prelude::Pubkey;
use vstd::prelude::*;
use vstd::string::StringSliceAdditionalSpecFns;

verus! {

/// What `swap_stable` reads: the payment's address, its vault and the vault's
/// bump, and the accounts of the Numeraire pool, two of them optional.
pub struct SwapStable {
    pub payment_key: Pubkey,
    pub vault_in: Pubkey,
    pub vault_in_bump: u8,
    pub pool: Pubkey,
    pub pool_program: Pubkey,
    pub in_mint: Pubkey,
    pub out_mint: Pubkey,
    pub in_trader: Pubkey,
    pub out_trader: Pubkey,
    pub in_vault: Option<Pubkey>,
    pub out_vault: Option<Pubkey>,
    pub numeraire_config: Pubkey,
    pub payer: Pubkey,
    pub token_program: Pubkey,
    pub token_2022_program: Pubkey,
}

/// The optional account as an entry list: one writable entry, or none.
pub open spec fn optional_entry(key: Option<Pubkey>) -> Seq<AccountEntry> {
    match key {
        Some(k) => seq![writable(k, false)],
        None => seq![],
    }
}

/// The accounts of the swap in the pool's order: the pool, the mints and the
/// traders, the vaults that are given, then the Numeraire config, the signing
/// payer and the two token programs.
pub open spec fn stable_swap_accounts(ctx: SwapStable) -> Seq<AccountEntry> {
    seq![
        writable(ctx.pool, false),
        writable(ctx.in_mint, false),
        writable(ctx.out_mint, false),
        writable(ctx.in_trader, false),
        writable(ctx.out_trader, false),
    ] + optional_entry(ctx.in_vault) + optional_entry(ctx.out_vault) + seq![
        readonly(ctx.numeraire_config, false),
        writable(ctx.payer, true),
        readonly(ctx.token_program, false),
        readonly(ctx.token_2022_program, false),
    ]
}

/// Plans a swap of exactly `amount_in` of the payment vault's token for at
/// least `min_out` of another, signed by the vault. Refused with
/// `Unauthorized` when the payer is not the payment's vault, else with
/// `InputTooSmall` when `amount_in` is zero.
pub fn swap_stable(ctx: &SwapStable, in_index: u8, out_index: u8, amount_in: u64, min_out: u64) -> (r:
    Result<SwapCall, CustomError>)
    ensures
        r matches Ok(call) ==> call.instruction.accounts@.len() >= 9 && call.instruction.accounts@[3]
            == (AccountEntry { key: ctx.in_trader, is_signer: false, is_writable: true })
            && call.instruction.accounts@[4] == (AccountEntry {
            key: ctx.out_trader,
            is_signer: false,
            is_writable: true,
        }),
        r matches Ok(call) ==> (ctx.in_vault matches Some(v) ==> call.instruction.accounts@[5] == (
        AccountEntry { key: v, is_signer: false, is_writable: true })),
        r matches Ok(call) ==> (ctx.out_vault matches Some(v) ==> call.instruction.accounts@[if ctx.in_vault
            is Some {
            6int
        } else {
            5int
        }] == (AccountEntry { key: v, is_signer: false, is_writable: true })),
        ctx.payer != ctx.vault_in ==> r == Err::<SwapCall, CustomError>(CustomError::Unauthorized),
        ctx.payer == ctx.vault_in && amount_in == 0 ==> r == Err::<SwapCall, CustomError>(
            CustomError::InputTooSmall,
        ),
        ctx.payer == ctx.vault_in && amount_in > 0 ==> {
            &&& r is Ok
            &&& r->Ok_0.approve_amount == amount_in
            &&& r->Ok_0.signer_seeds.deep_view() == signer_seeds(
                "vault".spec_bytes(),
                ctx.payment_key,
                ctx.vault_in_bump,
            )
            &&& r->Ok_0.instruction.program_id == ctx.pool_program
            &&& r->Ok_0.instruction.accounts@ == stable_swap_accounts(*ctx)
            &&& r->Ok_0.instruction.data@ == swap_data(
                SwapExactInHintlessData {
                    in_index,
                    out_index,
                    exact_amount_in: amount_in,
                    min_amount_out: min_out,
                },
            )
        },
{
    if !keys_equal(&ctx.payer, &ctx.vault_in) {
        return Err(CustomError::Unauthorized);
    }
    if !(amount_in > 0) {
        return Err(CustomError::InputTooSmall);
    }
    let seeds = vault_signer_seeds("vault", &ctx.payment_key, ctx.vault_in_bump);
    let payload = SwapExactInHintlessData {
        in_index,
        out_index,
        exact_amount_in: amount_in,
        min_amount_out: min_out,
    };
    let data = payload.instruction_data();
    let mut accounts: Vec<AccountEntry> = Vec::new();
    accounts.push(AccountEntry::new(ctx.pool, false));
    accounts.push(AccountEntry::new(ctx.in_mint, false));
    accounts.push(AccountEntry::new(ctx.out_mint, false));
    accounts.push(AccountEntry::new(ctx.in_trader, false));
    accounts.push(AccountEntry::new(ctx.out_trader, false));
    let ghost fixed = accounts@;
    if let Some(v) = ctx.in_vault {
        accounts.push(AccountEntry::new(v, false));
    }
    assert(accounts@ =~= fixed + optional_entry(ctx.in_vault));
    let ghost with_in = accounts@;
    if let Some(v) = ctx.out_vault {
        accounts.push(AccountEntry::new(v, false));
    }
    assert(accounts@ =~= with_in + optional_entry(ctx.out_vault));
    accounts.push(AccountEntry::new_readonly(ctx.numeraire_config, false));
    accounts.push(AccountEntry::new(ctx.payer, true));
    accounts.push(AccountEntry::new_readonly(ctx.token_program, false));
    accounts.push(AccountEntry::new_readonly(ctx.token_2022_program, false));
    assert(accounts@ =~= stable_swap_accounts(*ctx));
    let instruction = CpiInstruction { program_id: ctx.pool_program, accounts, data };
    Ok(SwapCall { approve_amount: amount_in, signer_seeds: seeds, instruction })
}

} // verus!

//! What the program asks of other programs: instruction accounts, the swap
//! instruction of the Numeraire pool, and the seeds that sign for vaults.
use crate::keys::{key_bytes, key_seed};
use anchor_lang::prelude::Pubkey;
use vstd::bytes::{spec_u64_to_le_bytes, u64_to_le_bytes};
use vstd::prelude::*;
use vstd::string::{StrSliceExecFns, StringSliceAdditionalSpecFns};

verus! {

/// An account handed to another program's instruction, with its role.
pub struct AccountEntry {
    pub key: Pubkey,
    pub is_signer: bool,
    pub is_writable: bool,
}

/// An account the instruction may write (the role `AccountMeta::new` gives).
pub open spec fn writable(key: Pubkey, is_signer: bool) -> AccountEntry {
    AccountEntry { key, is_signer, is_writable: true }
}

/// An account the instruction only reads (the role `AccountMeta::new_readonly` gives).
pub open spec fn readonly(key: Pubkey, is_signer: bool) -> AccountEntry {
    AccountEntry { key, is_signer, is_writable: false }
}

impl AccountEntry {
    /// A writable account entry.
    pub fn new(key: Pubkey, is_signer: bool) -> (r: AccountEntry)
        ensures
            r == writable(key, is_signer),
    {
        AccountEntry { key, is_signer, is_writable: true }
    }

    /// A read-only account entry.
    pub fn new_readonly(key: Pubkey, is_signer: bool) -> (r: AccountEntry)
        ensures
            r == readonly(key, is_signer),
    {
        AccountEntry { key, is_signer, is_writable: false }
    }
}

/// An instruction for another program: its id, its accounts in order, its data.
pub struct CpiInstruction {
    pub program_id: Pubkey,
    pub accounts: Vec<AccountEntry>,
    pub data: Vec<u8>,
}

/// The tag that selects the Numeraire pool's `swap_exact_in` instruction.
pub open spec fn swap_exact_in_discriminator() -> Seq<u8> {
    seq![104u8, 104u8, 131u8, 86u8, 161u8, 189u8, 180u8, 216u8]
}

/// Arguments of `swap_exact_in`: which of the pool's tokens goes in and which
/// comes out, the exact amount in, and the least amount out accepted.
pub struct SwapExactInHintlessData {
    pub in_index: u8,
    pub out_index: u8,
    pub exact_amount_in: u64,
    pub min_amount_out: u64,
}

/// The instruction data of `swap_exact_in`: the tag, then the arguments in
/// order, each integer in little-endian bytes of its width.
pub open spec fn swap_data(payload: SwapExactInHintlessData) -> Seq<u8> {
    swap_exact_in_discriminator() + seq![payload.in_index, payload.out_index]
        + spec_u64_to_le_bytes(payload.exact_amount_in) + spec_u64_to_le_bytes(
        payload.min_amount_out,
    )
}

impl SwapExactInHintlessData {
    /// The instruction data that carries these arguments.
    pub fn instruction_data(&self) -> (r: Vec<u8>)
        ensures
            r@ == swap_data(*self),
    {
        let mut data: Vec<u8> = vec![104u8, 104u8, 131u8, 86u8, 161u8, 189u8, 180u8, 216u8];
        data.push(self.in_index);
        data.push(self.out_index);
        let mut amount_in = u64_to_le_bytes(self.exact_amount_in);
        data.append(&mut amount_in);
        let mut min_out = u64_to_le_bytes(self.min_amount_out);
        data.append(&mut min_out);
        assert(data@ =~= swap_data(*self));
        data
    }
}

/// Seeds by which the program signs for the vault derived from `prefix`, `key` and `bump`.
pub open spec fn signer_seeds(prefix: Seq<u8>, key: Pubkey, bump: u8) -> Seq<Seq<u8>> {
    seq![prefix, key_bytes(key), seq![bump]]
}

/// The seeds `[prefix, key, [bump]]` of a program-derived vault.
pub fn vault_signer_seeds(prefix: &str, key: &Pubkey, bump: u8) -> (r: Vec<Vec<u8>>)
    ensures
        r.deep_view() == signer_seeds(prefix.spec_bytes(), *key, bump),
{
    let p = prefix.as_bytes_vec();
    let k = key_seed(key);
    let b: Vec<u8> = vec![bump];
    let ghost (ps, ks, bs) = (p@, k@, b@);
    proof {
        assert(p.deep_view() =~= ps);
        assert(k.deep_view() =~= ks);
        assert(b.deep_view() =~= bs);
        assert(bs =~= seq![bump]);
    }
    let mut r: Vec<Vec<u8>> = Vec::new();
    r.push(p);
    r.push(k);
    r.push(b);
    assert(r.deep_view() =~= seq![ps, ks, bs]);
    r
}

} // verus!

verus! {

/// A swap in the Numeraire pool: approve the spend of `approve_amount`, then
/// invoke `instruction`, signing with `signer_seeds` (none when empty).
pub struct SwapCall {
    pub approve_amount: u64,
    pub signer_seeds: Vec<Vec<u8>>,
    pub instruction: CpiInstruction,
}

} // verus!

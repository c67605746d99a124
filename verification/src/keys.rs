//! The operations on account keys that the logic uses, from the `Pubkey` of the
//! Solana SDK, with what each is trusted to do.
use anchor_lang::prelude::Pubkey;
use vstd::prelude::*;

verus! {

#[verifier::external_type_specification]
#[verifier::external_body]
pub struct ExPubkey(Pubkey);

/// The bytes of a key, as `<Pubkey as AsRef<[u8]>>::as_ref` shows them.
pub uninterp spec fn key_bytes(k: Pubkey) -> Seq<u8>;

/// `<Pubkey as AsRef<[u8]>>::as_ref`, copied into a vector: the key's bytes,
/// as they go into a seed of a program-derived address.
#[verifier::external_body]
pub(crate) fn key_seed(k: &Pubkey) -> (r: Vec<u8>)
    ensures
        r@ == key_bytes(*k),
{
    k.as_ref().to_vec()
}

/// `Pubkey::default()`: the key whose 32 bytes are all zero.
#[verifier::external_body]
pub(crate) fn default_key() -> (k: Pubkey)
    ensures
        key_bytes(k) == Seq::new(32, |_i: int| 0u8),
{
    Pubkey::default()
}

/// `==` on `Pubkey`, which the crate derives: equal exactly when the keys are the same value.
#[verifier::external_body]
pub(crate) fn keys_equal(a: &Pubkey, b: &Pubkey) -> (r: bool)
    ensures
        r == (*a == *b),
{
    a == b
}

} // verus!

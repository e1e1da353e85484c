//! The wallet's own pay-to-pubkey-hash address, from its public key.

use vstd::prelude::*;
use crate::transaction::{Address, AddressKind};

verus! {

/// HASH160 (RIPEMD-160 of SHA-256) of `data`.
pub uninterp spec fn hash160_of(data: Seq<u8>) -> Seq<u8>;

/// Relies on bitcoin_hashes' `hash160::Hash::hash` (re-exported by the
/// bitcoin crate): RIPEMD-160 of the SHA-256 of the bytes.
#[verifier::external_body]
fn hash160(data: &Vec<u8>) -> (r: [u8; 20])
    ensures
        r@ == hash160_of(data@),
{
    let h = <bitcoin::hashes::hash160::Hash as bitcoin::hashes::Hash>::hash(data.as_slice());
    <bitcoin::hashes::hash160::Hash as bitcoin::hashes::Hash>::to_byte_array(h)
}

pub const OP_DUP: u8 = 0x76;
pub const OP_HASH160: u8 = 0xa9;
pub const OP_EQUALVERIFY: u8 = 0x88;
pub const OP_CHECKSIG: u8 = 0xac;

/// The locking script paying to the key whose HASH160 is `pubkey_hash`:
/// `OP_DUP OP_HASH160 <pubkey_hash> OP_EQUALVERIFY OP_CHECKSIG`.
pub open spec fn p2pkh_script(pubkey_hash: Seq<u8>) -> Seq<u8> {
    seq![OP_DUP, OP_HASH160, pubkey_hash.len() as u8] + pubkey_hash + seq![OP_EQUALVERIFY, OP_CHECKSIG]
}

/// The locking script for the 20-byte key hash.
pub fn p2pkh_script_for_hash(pubkey_hash: &[u8; 20]) -> (r: Vec<u8>)
    ensures
        r@ == p2pkh_script(pubkey_hash@),
{
    let mut s: Vec<u8> = Vec::new();
    s.push(OP_DUP);
    s.push(OP_HASH160);
    s.push(20u8);
    let mut k: usize = 0;
    while k < 20
        invariant
            k <= 20,
            s@ == seq![OP_DUP, OP_HASH160, 20u8] + pubkey_hash@.subrange(0, k as int),
        decreases 20 - k,
    {
        s.push(pubkey_hash[k]);
        k = k + 1;
        assert(s@ =~= seq![OP_DUP, OP_HASH160, 20u8] + pubkey_hash@.subrange(0, k as int));
    }
    s.push(OP_EQUALVERIFY);
    s.push(OP_CHECKSIG);
    assert(pubkey_hash@.subrange(0, 20) =~= pubkey_hash@);
    assert(s@ =~= p2pkh_script(pubkey_hash@));
    s
}

/// The legacy pay-to-pubkey-hash address of a public key (given in its
/// serialized form), as its kind and locking script.
pub fn p2pkh_address(public_key: &Vec<u8>) -> (r: Address)
    ensures
        r.kind == AddressKind::P2pkh,
        r.script_pubkey@ == p2pkh_script(hash160_of(public_key@)),
{
    let h = hash160(public_key);
    Address { kind: AddressKind::P2pkh, script_pubkey: p2pkh_script_for_hash(&h) }
}

} // verus!

//! Hierarchical derivation paths of the wallet's keys.

use vstd::prelude::*;

verus! {

/// Added to an index to mark it as hardened.
pub const HARDENED_OFFSET: u32 = 0x8000_0000;

/// Purpose field value of legacy pay-to-pubkey-hash paths.
pub const PURPOSE_P2PKH: u32 = 44;

/// The big-endian bytes of a 32-bit index.
pub open spec fn be32(x: u32) -> Seq<u8> {
    seq![
        ((x >> 24u32) & 0xff) as u8,
        ((x >> 16u32) & 0xff) as u8,
        ((x >> 8u32) & 0xff) as u8,
        (x & 0xff) as u8,
    ]
}

#[derive(Clone, Copy, Debug, PartialEq, Eq, Structural)]
pub enum Purpose {
    P2pkh,
}

impl Purpose {
    pub open spec fn spec_to_u32(&self) -> u32 {
        match self {
            Purpose::P2pkh => PURPOSE_P2PKH,
        }
    }

    pub fn to_u32(&self) -> (r: u32)
        ensures
            r == self.spec_to_u32(),
    {
        match self {
            Purpose::P2pkh => PURPOSE_P2PKH,
        }
    }
}

/// A path purpose / coin type / account / change / address index, with the
/// first three hardened.
pub struct DerivationPath {
    purpose: Purpose,
    coin_type: u32,
    account: u32,
    change: u32,
    address_index: u32,
}

fn be32_bytes(x: u32) -> (r: Vec<u8>)
    ensures
        r@ == be32(x),
{
    let mut v: Vec<u8> = Vec::new();
    v.push(((x >> 24u32) & 0xff) as u8);
    v.push(((x >> 16u32) & 0xff) as u8);
    v.push(((x >> 8u32) & 0xff) as u8);
    v.push((x & 0xff) as u8);
    assert(v@ =~= be32(x));
    v
}

impl DerivationPath {
    /// The five indices of the path, hardening included.
    pub closed spec fn indices(&self) -> Seq<u32> {
        seq![
            self.purpose.spec_to_u32() | HARDENED_OFFSET,
            self.coin_type | HARDENED_OFFSET,
            self.account | HARDENED_OFFSET,
            self.change,
            self.address_index,
        ]
    }

    fn new(purpose: Purpose, account: u32, address_index: u32) -> (r: Self)
        ensures
            r.indices() == seq![
                purpose.spec_to_u32() | HARDENED_OFFSET,
                HARDENED_OFFSET,
                account | HARDENED_OFFSET,
                0u32,
                address_index,
            ],
    {
        let r = Self { purpose, coin_type: 0, account, change: 0, address_index };
        assert((0u32 | HARDENED_OFFSET) == HARDENED_OFFSET) by (bit_vector);
        r
    }

    /// The path of the legacy pay-to-pubkey-hash key of `account` at `address_index`.
    pub fn p2pkh(account: u32, address_index: u32) -> (r: Self)
        ensures
            r.indices() == seq![
                PURPOSE_P2PKH | HARDENED_OFFSET,
                HARDENED_OFFSET,
                account | HARDENED_OFFSET,
                0u32,
                address_index,
            ],
    {
        Self::new(Purpose::P2pkh, account, address_index)
    }

    /// The path as the big-endian bytes of each index.
    pub fn to_vec_u8_path(&self) -> (r: Vec<Vec<u8>>)
        ensures
            r.len() == 5,
            forall|k: int| 0 <= k < 5 ==> (#[trigger] r@[k])@ == be32(self.indices()[k]),
    {
        let mut r: Vec<Vec<u8>> = Vec::new();
        r.push(be32_bytes(self.purpose.to_u32() | HARDENED_OFFSET));
        r.push(be32_bytes(self.coin_type | HARDENED_OFFSET));
        r.push(be32_bytes(self.account | HARDENED_OFFSET));
        r.push(be32_bytes(self.change));
        r.push(be32_bytes(self.address_index));
        r
    }
}

} // verus!

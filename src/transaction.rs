//! Value types of a legacy Bitcoin transaction and their mathematical views.

use vstd::prelude::*;

verus! {

/// Sequence number of an input that opts out of relative time locks.
pub const SEQUENCE_FINAL: u32 = 0xffff_ffff;

/// Version written into every transaction built here.
pub const TX_VERSION: u32 = 2;

/// Reference to one output of an earlier transaction.
#[derive(Clone, Copy, Debug, PartialEq, Eq)]
pub struct OutPoint {
    /// Transaction id in internal (hash) byte order.
    pub txid: [u8; 32],
    /// Index of the output within that transaction.
    pub vout: u32,
}

/// A spendable output, as listed by the blockchain data source.
#[derive(Clone, Copy, Debug, PartialEq, Eq)]
pub struct Utxo {
    pub outpoint: OutPoint,
    /// Value in satoshi.
    pub value: u64,
}

/// Kind of an address, by the script that locks outputs paid to it.
#[derive(Clone, Copy, Debug, PartialEq, Eq, Structural)]
pub enum AddressKind {
    P2pkh,
    P2sh,
    P2wpkh,
    P2wsh,
    P2tr,
    P2a,
    Unknown,
}

/// An address, as the script that locks outputs paid to it and its kind.
#[derive(Clone, Debug, PartialEq, Eq)]
pub struct Address {
    pub kind: AddressKind,
    pub script_pubkey: Vec<u8>,
}

/// A transaction input. Legacy inputs carry no witness data.
#[derive(Clone, Debug, PartialEq, Eq)]
pub struct TxIn {
    pub previous_output: OutPoint,
    pub script_sig: Vec<u8>,
    pub sequence: u32,
}

/// A transaction output.
#[derive(Clone, Debug, PartialEq, Eq)]
pub struct TxOut {
    /// Value in satoshi.
    pub value: u64,
    pub script_pubkey: Vec<u8>,
}

/// A legacy (non-witness) transaction.
#[derive(Clone, Debug, PartialEq, Eq)]
pub struct Transaction {
    pub version: u32,
    pub lock_time: u32,
    pub input: Vec<TxIn>,
    pub output: Vec<TxOut>,
}

pub struct TxInView {
    pub prev_txid: Seq<u8>,
    pub prev_vout: u32,
    pub script_sig: Seq<u8>,
    pub sequence: u32,
}

pub struct TxOutView {
    pub value: u64,
    pub script_pubkey: Seq<u8>,
}

pub struct TransactionView {
    pub version: u32,
    pub lock_time: u32,
    pub input: Seq<TxInView>,
    pub output: Seq<TxOutView>,
}

impl View for TxIn {
    type V = TxInView;

    open spec fn view(&self) -> TxInView {
        TxInView {
            prev_txid: self.previous_output.txid@,
            prev_vout: self.previous_output.vout,
            script_sig: self.script_sig@,
            sequence: self.sequence,
        }
    }
}

impl View for TxOut {
    type V = TxOutView;

    open spec fn view(&self) -> TxOutView {
        TxOutView { value: self.value, script_pubkey: self.script_pubkey@ }
    }
}

impl View for Transaction {
    type V = TransactionView;

    open spec fn view(&self) -> TransactionView {
        TransactionView {
            version: self.version,
            lock_time: self.lock_time,
            input: self.input@.map_values(|i: TxIn| i@),
            output: self.output@.map_values(|o: TxOut| o@),
        }
    }
}

/// Sum of the values of a sequence of outputs.
pub open spec fn sum_output_values(outs: Seq<TxOutView>) -> int
    decreases outs.len(),
{
    if outs.len() == 0 {
        0
    } else {
        sum_output_values(outs.drop_last()) + outs.last().value
    }
}

/// Copies a byte vector element by element.
pub fn copy_bytes(b: &Vec<u8>) -> (r: Vec<u8>)
    ensures
        r@ == b@,
{
    let mut r: Vec<u8> = Vec::new();
    let mut i: usize = 0;
    while i < b.len()
        invariant
            i <= b.len(),
            r@ == b@.subrange(0, i as int),
        decreases b.len() - i,
    {
        r.push(b[i]);
        i = i + 1;
    }
    assert(r@ =~= b@);
    r
}

} // verus!

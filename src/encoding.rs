//! The consensus wire format of a legacy (non-witness) transaction:
//! version, input count and inputs, output count and outputs, lock time.

use vstd::prelude::*;
use crate::transaction::{Transaction, TransactionView, TxIn, TxInView, TxOut, TxOutView};

verus! {

pub open spec fn le16(x: u16) -> Seq<u8> {
    seq![(x & 0xff) as u8, ((x >> 8u16) & 0xff) as u8]
}

pub open spec fn le32(x: u32) -> Seq<u8> {
    seq![
        (x & 0xff) as u8,
        ((x >> 8u32) & 0xff) as u8,
        ((x >> 16u32) & 0xff) as u8,
        ((x >> 24u32) & 0xff) as u8,
    ]
}

pub open spec fn le64(x: u64) -> Seq<u8> {
    seq![
        (x & 0xff) as u8,
        ((x >> 8u64) & 0xff) as u8,
        ((x >> 16u64) & 0xff) as u8,
        ((x >> 24u64) & 0xff) as u8,
        ((x >> 32u64) & 0xff) as u8,
        ((x >> 40u64) & 0xff) as u8,
        ((x >> 48u64) & 0xff) as u8,
        ((x >> 56u64) & 0xff) as u8,
    ]
}

/// The variable-length integer ("compact size") that prefixes counts and
/// byte strings, in its shortest form.
pub open spec fn compact_size(n: u64) -> Seq<u8> {
    if n < 0xfd {
        seq![n as u8]
    } else if n <= 0xffff {
        seq![0xfdu8] + le16(n as u16)
    } else if n <= 0xffff_ffff {
        seq![0xfeu8] + le32(n as u32)
    } else {
        seq![0xffu8] + le64(n)
    }
}

/// A byte string preceded by its length.
pub open spec fn var_bytes(s: Seq<u8>) -> Seq<u8> {
    compact_size(s.len() as u64) + s
}

pub open spec fn input_bytes(i: TxInView) -> Seq<u8> {
    i.prev_txid + le32(i.prev_vout) + var_bytes(i.script_sig) + le32(i.sequence)
}

pub open spec fn output_bytes(o: TxOutView) -> Seq<u8> {
    le64(o.value) + var_bytes(o.script_pubkey)
}

pub open spec fn inputs_bytes(s: Seq<TxInView>) -> Seq<u8>
    decreases s.len(),
{
    if s.len() == 0 {
        Seq::empty()
    } else {
        inputs_bytes(s.drop_last()) + input_bytes(s.last())
    }
}

pub open spec fn outputs_bytes(s: Seq<TxOutView>) -> Seq<u8>
    decreases s.len(),
{
    if s.len() == 0 {
        Seq::empty()
    } else {
        outputs_bytes(s.drop_last()) + output_bytes(s.last())
    }
}

/// The serialized form of a transaction.
pub open spec fn tx_bytes(t: TransactionView) -> Seq<u8> {
    le32(t.version) + compact_size(t.input.len() as u64) + inputs_bytes(t.input) + compact_size(
        t.output.len() as u64,
    ) + outputs_bytes(t.output) + le32(t.lock_time)
}

/// An input whose fields have the sizes that the wire format can carry.
pub open spec fn input_wf(i: TxInView) -> bool {
    &&& i.prev_txid.len() == 32
    &&& i.script_sig.len() <= u64::MAX
}

/// A transaction that the legacy wire format carries unambiguously: at least
/// one input (a zero count would read as the witness marker), and counts and
/// lengths that fit a compact size.
pub open spec fn wire_encodable(t: TransactionView) -> bool {
    &&& 1 <= t.input.len() <= u64::MAX
    &&& t.output.len() <= u64::MAX
    &&& forall|k: int| 0 <= k < t.input.len() ==> input_wf(#[trigger] t.input[k])
    &&& forall|k: int| 0 <= k < t.output.len() ==> (#[trigger] t.output[k]).script_pubkey.len() <= u64::MAX
}

/// Size of the serialized transaction in virtual bytes. A legacy
/// transaction has no witness, so this is its serialized length.
pub open spec fn tx_vsize(t: TransactionView) -> nat {
    tx_bytes(t).len()
}

pub fn push_u16_le(out: &mut Vec<u8>, x: u16)
    ensures
        final(out)@ == old(out)@ + le16(x),
{
    out.push((x & 0xff) as u8);
    out.push(((x >> 8u16) & 0xff) as u8);
    assert(final(out)@ =~= old(out)@ + le16(x));
}

pub fn push_u32_le(out: &mut Vec<u8>, x: u32)
    ensures
        final(out)@ == old(out)@ + le32(x),
{
    out.push((x & 0xff) as u8);
    out.push(((x >> 8u32) & 0xff) as u8);
    out.push(((x >> 16u32) & 0xff) as u8);
    out.push(((x >> 24u32) & 0xff) as u8);
    assert(final(out)@ =~= old(out)@ + le32(x));
}

pub fn push_u64_le(out: &mut Vec<u8>, x: u64)
    ensures
        final(out)@ == old(out)@ + le64(x),
{
    out.push((x & 0xff) as u8);
    out.push(((x >> 8u64) & 0xff) as u8);
    out.push(((x >> 16u64) & 0xff) as u8);
    out.push(((x >> 24u64) & 0xff) as u8);
    out.push(((x >> 32u64) & 0xff) as u8);
    out.push(((x >> 40u64) & 0xff) as u8);
    out.push(((x >> 48u64) & 0xff) as u8);
    out.push(((x >> 56u64) & 0xff) as u8);
    assert(final(out)@ =~= old(out)@ + le64(x));
}

pub fn push_compact_size(out: &mut Vec<u8>, n: u64)
    ensures
        final(out)@ == old(out)@ + compact_size(n),
{
    if n < 0xfd {
        out.push(n as u8);
        assert(final(out)@ =~= old(out)@ + compact_size(n));
    } else if n <= 0xffff {
        out.push(0xfdu8);
        push_u16_le(out, n as u16);
        assert(final(out)@ =~= old(out)@ + compact_size(n));
    } else if n <= 0xffff_ffff {
        out.push(0xfeu8);
        push_u32_le(out, n as u32);
        assert(final(out)@ =~= old(out)@ + compact_size(n));
    } else {
        out.push(0xffu8);
        push_u64_le(out, n);
        assert(final(out)@ =~= old(out)@ + compact_size(n));
    }
}

pub fn push_bytes(out: &mut Vec<u8>, b: &Vec<u8>)
    ensures
        final(out)@ == old(out)@ + b@,
{
    let ghost start = out@;
    let mut i: usize = 0;
    while i < b.len()
        invariant
            i <= b.len(),
            out@ == start + b@.subrange(0, i as int),
        decreases b.len() - i,
    {
        out.push(b[i]);
        i = i + 1;
        assert(out@ =~= start + b@.subrange(0, i as int));
    }
    assert(b@.subrange(0, b.len() as int) =~= b@);
}

pub fn push_var_bytes(out: &mut Vec<u8>, b: &Vec<u8>)
    ensures
        final(out)@ == old(out)@ + var_bytes(b@),
{
    push_compact_size(out, b.len() as u64);
    push_bytes(out, b);
    assert(final(out)@ =~= old(out)@ + var_bytes(b@));
}

pub fn push_input(out: &mut Vec<u8>, i: &TxIn)
    ensures
        final(out)@ == old(out)@ + input_bytes(i@),
{
    let ghost start = out@;
    let mut k: usize = 0;
    while k < 32
        invariant
            k <= 32,
            out@ == start + i.previous_output.txid@.subrange(0, k as int),
        decreases 32 - k,
    {
        out.push(i.previous_output.txid[k]);
        k = k + 1;
        assert(out@ =~= start + i.previous_output.txid@.subrange(0, k as int));
    }
    assert(i.previous_output.txid@.subrange(0, 32) =~= i.previous_output.txid@);
    push_u32_le(out, i.previous_output.vout);
    push_var_bytes(out, &i.script_sig);
    push_u32_le(out, i.sequence);
    assert(out@ =~= start + input_bytes(i@));
}

pub fn push_output(out: &mut Vec<u8>, o: &TxOut)
    ensures
        final(out)@ == old(out)@ + output_bytes(o@),
{
    push_u64_le(out, o.value);
    push_var_bytes(out, &o.script_pubkey);
    assert(final(out)@ =~= old(out)@ + output_bytes(o@));
}

/// Serializes a transaction in the legacy wire format.
pub fn serialize_transaction(tx: &Transaction) -> (r: Vec<u8>)
    ensures
        r@ == tx_bytes(tx@),
{
    let mut out: Vec<u8> = Vec::new();
    push_u32_le(&mut out, tx.version);
    push_compact_size(&mut out, tx.input.len() as u64);
    let ghost after_count = out@;
    let mut i: usize = 0;
    while i < tx.input.len()
        invariant
            i <= tx.input.len(),
            out@ == after_count + inputs_bytes(tx@.input.take(i as int)),
        decreases tx.input.len() - i,
    {
        push_input(&mut out, &tx.input[i]);
        assert(tx@.input.take(i + 1).drop_last() =~= tx@.input.take(i as int));
        i = i + 1;
    }
    assert(tx@.input.take(i as int) =~= tx@.input);
    push_compact_size(&mut out, tx.output.len() as u64);
    let ghost after_inputs = out@;
    let mut j: usize = 0;
    while j < tx.output.len()
        invariant
            j <= tx.output.len(),
            out@ == after_inputs + outputs_bytes(tx@.output.take(j as int)),
        decreases tx.output.len() - j,
    {
        push_output(&mut out, &tx.output[j]);
        assert(tx@.output.take(j + 1).drop_last() =~= tx@.output.take(j as int));
        j = j + 1;
    }
    assert(tx@.output.take(j as int) =~= tx@.output);
    push_u32_le(&mut out, tx.lock_time);
    assert(out@ =~= tx_bytes(tx@));
    out
}

} // verus!

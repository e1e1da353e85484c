//! Reading a transaction back from its wire format. Whatever is accepted
//! serializes back to exactly the bytes it was read from.

use vstd::prelude::*;
use crate::encoding::{
    compact_size, input_bytes, input_wf, inputs_bytes, le16, le32, le64, output_bytes,
    outputs_bytes, tx_bytes, var_bytes, wire_encodable,
};
use crate::transaction::{TransactionView, TxInView, TxOutView};
use crate::transaction::{OutPoint, Transaction, TxIn, TxOut};

verus! {

/// Whether `x` occurs in `b` at position `pos`.
pub open spec fn has_at(b: Seq<u8>, pos: int, x: Seq<u8>) -> bool {
    &&& 0 <= pos
    &&& pos + x.len() <= b.len()
    &&& b.subrange(pos, pos + x.len()) == x
}

proof fn lemma_has_at_split(b: Seq<u8>, pos: int, x: Seq<u8>, y: Seq<u8>)
    requires
        has_at(b, pos, x + y),
    ensures
        has_at(b, pos, x),
        has_at(b, pos + x.len(), y),
{
    assert(b.subrange(pos, pos + x.len()) =~= b.subrange(pos, pos + (x + y).len()).subrange(0, x.len() as int));
    assert(b.subrange(pos + x.len(), pos + x.len() + y.len()) =~= b.subrange(pos, pos + (x + y).len()).subrange(
        x.len() as int,
        (x + y).len() as int,
    ));
    assert((x + y).subrange(0, x.len() as int) =~= x);
    assert((x + y).subrange(x.len() as int, (x + y).len() as int) =~= y);
}

proof fn lemma_le16_injective(x: u16, y: u16)
    requires
        le16(x) == le16(y),
    ensures
        x == y,
{
    assert(le16(x)[0] == le16(y)[0] && le16(x)[1] == le16(y)[1]);
    assert(((x & 0xff) as u8 == (y & 0xff) as u8 && ((x >> 8u16) & 0xff) as u8 == ((y >> 8u16) & 0xff) as u8) ==> x == y) by (bit_vector);
}

proof fn lemma_le32_injective(x: u32, y: u32)
    requires
        le32(x) == le32(y),
    ensures
        x == y,
{
    assert(le32(x)[0] == le32(y)[0] && le32(x)[1] == le32(y)[1] && le32(x)[2] == le32(y)[2]
        && le32(x)[3] == le32(y)[3]);
    assert(((x & 0xff) as u8 == (y & 0xff) as u8 && ((x >> 8u32) & 0xff) as u8 == ((y >> 8u32) & 0xff) as u8
        && ((x >> 16u32) & 0xff) as u8 == ((y >> 16u32) & 0xff) as u8 && ((x >> 24u32) & 0xff) as u8 == ((y
        >> 24u32) & 0xff) as u8) ==> x == y) by (bit_vector);
}

proof fn lemma_le64_injective(x: u64, y: u64)
    requires
        le64(x) == le64(y),
    ensures
        x == y,
{
    assert(le64(x)[0] == le64(y)[0] && le64(x)[1] == le64(y)[1] && le64(x)[2] == le64(y)[2]
        && le64(x)[3] == le64(y)[3] && le64(x)[4] == le64(y)[4] && le64(x)[5] == le64(y)[5]
        && le64(x)[6] == le64(y)[6] && le64(x)[7] == le64(y)[7]);
    assert(((x & 0xff) as u8 == (y & 0xff) as u8 && ((x >> 8u64) & 0xff) as u8 == ((y >> 8u64) & 0xff) as u8
        && ((x >> 16u64) & 0xff) as u8 == ((y >> 16u64) & 0xff) as u8 && ((x >> 24u64) & 0xff) as u8 == ((y
        >> 24u64) & 0xff) as u8 && ((x >> 32u64) & 0xff) as u8 == ((y >> 32u64) & 0xff) as u8 && ((x
        >> 40u64) & 0xff) as u8 == ((y >> 40u64) & 0xff) as u8 && ((x >> 48u64) & 0xff) as u8 == ((y
        >> 48u64) & 0xff) as u8 && ((x >> 56u64) & 0xff) as u8 == ((y >> 56u64) & 0xff) as u8) ==> x
        == y) by (bit_vector);
}

/// What the first byte of a compact size tells, and where the rest stands.
proof fn lemma_compact_size_at(b: Seq<u8>, pos: int, n: u64)
    requires
        has_at(b, pos, compact_size(n)),
    ensures
        pos < b.len(),
        n < 0xfd ==> b[pos] as u64 == n,
        0xfd <= n <= 0xffff ==> b[pos] == 0xfd && has_at(b, pos + 1, le16(n as u16)) && n == (n as u16) as u64,
        0xffff < n <= 0xffff_ffff ==> b[pos] == 0xfe && has_at(b, pos + 1, le32(n as u32)) && n == (n as u32) as u64,
        0xffff_ffff < n ==> b[pos] == 0xff && has_at(b, pos + 1, le64(n)),
{
    let c = compact_size(n);
    assert(b[pos] == b.subrange(pos, pos + c.len())[0]);
    if n < 0xfd {
    } else if n <= 0xffff {
        lemma_has_at_split(b, pos, seq![0xfdu8], le16(n as u16));
    } else if n <= 0xffff_ffff {
        lemma_has_at_split(b, pos, seq![0xfeu8], le32(n as u32));
    } else {
        lemma_has_at_split(b, pos, seq![0xffu8], le64(n));
    }
}

fn read_u8(b: &Vec<u8>, pos: usize) -> (r: Option<(u8, usize)>)
    ensures
        match r {
            Some((v, p)) => p == pos + 1 && has_at(b@, pos as int, seq![v]) && v == b@[pos as int],
            None => pos + 1 > b.len(),
        },
{
    if pos < b.len() {
        let v = b[pos];
        assert(b@.subrange(pos as int, pos + 1) =~= seq![v]);
        Some((v, pos + 1))
    } else {
        None
    }
}

fn read_u16(b: &Vec<u8>, pos: usize) -> (r: Option<(u16, usize)>)
    ensures
        match r {
            Some((v, p)) => p == pos + 2 && has_at(b@, pos as int, le16(v)),
            None => pos + 2 > b.len(),
        },
        forall|x: u16| #[trigger] has_at(b@, pos as int, le16(x)) ==> r == Some((x, (pos + 2) as usize)),
{
    if pos <= b.len() && b.len() - pos >= 2 {
        let b0 = b[pos];
        let b1 = b[pos + 1];
        let v: u16 = (b0 as u16) | ((b1 as u16) << 8u16);
        assert((v & 0xff) as u8 == b0 && ((v >> 8u16) & 0xff) as u8 == b1) by (bit_vector)
            requires
                v == (b0 as u16) | ((b1 as u16) << 8u16),
        ;
        assert(b@.subrange(pos as int, pos + 2) =~= le16(v));
        assert forall|x: u16| #[trigger] has_at(b@, pos as int, le16(x)) implies x == v by {
            lemma_le16_injective(x, v);
        }
        Some((v, pos + 2))
    } else {
        None
    }
}

fn read_u32(b: &Vec<u8>, pos: usize) -> (r: Option<(u32, usize)>)
    ensures
        match r {
            Some((v, p)) => p == pos + 4 && has_at(b@, pos as int, le32(v)),
            None => pos + 4 > b.len(),
        },
        forall|x: u32| #[trigger] has_at(b@, pos as int, le32(x)) ==> r == Some((x, (pos + 4) as usize)),
{
    if pos <= b.len() && b.len() - pos >= 4 {
        let b0 = b[pos];
        let b1 = b[pos + 1];
        let b2 = b[pos + 2];
        let b3 = b[pos + 3];
        let v: u32 = (b0 as u32) | ((b1 as u32) << 8u32) | ((b2 as u32) << 16u32) | ((b3 as u32)
            << 24u32);
        assert((v & 0xff) as u8 == b0 && ((v >> 8u32) & 0xff) as u8 == b1 && ((v >> 16u32) & 0xff)
            as u8 == b2 && ((v >> 24u32) & 0xff) as u8 == b3) by (bit_vector)
            requires
                v == (b0 as u32) | ((b1 as u32) << 8u32) | ((b2 as u32) << 16u32) | ((b3 as u32)
                    << 24u32),
        ;
        assert(b@.subrange(pos as int, pos + 4) =~= le32(v));
        assert forall|x: u32| #[trigger] has_at(b@, pos as int, le32(x)) implies x == v by {
            lemma_le32_injective(x, v);
        }
        Some((v, pos + 4))
    } else {
        None
    }
}

fn read_u64(b: &Vec<u8>, pos: usize) -> (r: Option<(u64, usize)>)
    ensures
        match r {
            Some((v, p)) => p == pos + 8 && has_at(b@, pos as int, le64(v)),
            None => pos + 8 > b.len(),
        },
        forall|x: u64| #[trigger] has_at(b@, pos as int, le64(x)) ==> r == Some((x, (pos + 8) as usize)),
{
    if pos <= b.len() && b.len() - pos >= 8 {
        let lo = match read_u32(b, pos) {
            Some((x, _)) => x,
            None => {
                return None;
            },
        };
        let hi = match read_u32(b, pos + 4) {
            Some((x, _)) => x,
            None => {
                return None;
            },
        };
        let v: u64 = (lo as u64) | ((hi as u64) << 32u64);
        assert((v & 0xff) as u8 == (lo & 0xff) as u8 && ((v >> 8u64) & 0xff) as u8 == ((lo >> 8u32)
            & 0xff) as u8 && ((v >> 16u64) & 0xff) as u8 == ((lo >> 16u32) & 0xff) as u8 && ((v
            >> 24u64) & 0xff) as u8 == ((lo >> 24u32) & 0xff) as u8 && ((v >> 32u64) & 0xff) as u8
            == (hi & 0xff) as u8 && ((v >> 40u64) & 0xff) as u8 == ((hi >> 8u32) & 0xff) as u8 && ((v
            >> 48u64) & 0xff) as u8 == ((hi >> 16u32) & 0xff) as u8 && ((v >> 56u64) & 0xff) as u8
            == ((hi >> 24u32) & 0xff) as u8) by (bit_vector)
            requires
                v == (lo as u64) | ((hi as u64) << 32u64),
        ;
        assert(b@.subrange(pos as int, pos + 4) =~= le32(lo));
        assert(b@.subrange(pos + 4, pos + 8) =~= le32(hi));
        assert(b@.subrange(pos as int, pos + 8) =~= le64(v));
        assert forall|x: u64| #[trigger] has_at(b@, pos as int, le64(x)) implies x == v by {
            lemma_le64_injective(x, v);
        }
        Some((v, pos + 8))
    } else {
        None
    }
}

/// Reads a compact size; only the shortest encoding of a value is accepted.
fn read_compact_size(b: &Vec<u8>, pos: usize) -> (r: Option<(u64, usize)>)
    ensures
        match r {
            Some((n, p)) => p == pos + compact_size(n).len() && has_at(b@, pos as int, compact_size(n)),
            None => true,
        },
        forall|n: u64|
            #[trigger] has_at(b@, pos as int, compact_size(n)) ==> r == Some(
                (n, (pos + compact_size(n).len()) as usize),
            ),
{
    let (tag, p) = match read_u8(b, pos) {
        Some(x) => x,
        None => {
            proof {
                assert forall|n: u64| !#[trigger] has_at(b@, pos as int, compact_size(n)) by {
                    if has_at(b@, pos as int, compact_size(n)) {
                        lemma_compact_size_at(b@, pos as int, n);
                    }
                }
            }
            return None;
        },
    };
    if tag < 0xfd {
        assert(compact_size(tag as u64) =~= seq![tag]);
        assert forall|n: u64| #[trigger] has_at(b@, pos as int, compact_size(n)) implies n == tag as u64 by {
            lemma_compact_size_at(b@, pos as int, n);
        }
        Some((tag as u64, p))
    } else if tag == 0xfd {
        let r = match read_u16(b, p) {
            Some((v, q)) => {
                if v < 0xfd {
                    None
                } else {
                    assert(compact_size(v as u64) =~= seq![0xfdu8] + le16(v));
                    assert(b@.subrange(pos as int, q as int) =~= b@.subrange(pos as int, p as int)
                        + b@.subrange(p as int, q as int));
                    Some((v as u64, q))
                }
            },
            None => None,
        };
        assert forall|n: u64| #[trigger] has_at(b@, pos as int, compact_size(n)) implies r == Some(
            (n, (pos + compact_size(n).len()) as usize),
        ) by {
            lemma_compact_size_at(b@, pos as int, n);
            assert(has_at(b@, p as int, le16(n as u16)));
        }
        r
    } else if tag == 0xfe {
        let r = match read_u32(b, p) {
            Some((v, q)) => {
                if v <= 0xffff {
                    None
                } else {
                    assert(compact_size(v as u64) =~= seq![0xfeu8] + le32(v));
                    assert(b@.subrange(pos as int, q as int) =~= b@.subrange(pos as int, p as int)
                        + b@.subrange(p as int, q as int));
                    Some((v as u64, q))
                }
            },
            None => None,
        };
        assert forall|n: u64| #[trigger] has_at(b@, pos as int, compact_size(n)) implies r == Some(
            (n, (pos + compact_size(n).len()) as usize),
        ) by {
            lemma_compact_size_at(b@, pos as int, n);
            assert(has_at(b@, p as int, le32(n as u32)));
        }
        r
    } else {
        let r = match read_u64(b, p) {
            Some((v, q)) => {
                if v <= 0xffff_ffff {
                    None
                } else {
                    assert(compact_size(v) =~= seq![0xffu8] + le64(v));
                    assert(b@.subrange(pos as int, q as int) =~= b@.subrange(pos as int, p as int)
                        + b@.subrange(p as int, q as int));
                    Some((v, q))
                }
            },
            None => None,
        };
        assert forall|n: u64| #[trigger] has_at(b@, pos as int, compact_size(n)) implies r == Some(
            (n, (pos + compact_size(n).len()) as usize),
        ) by {
            lemma_compact_size_at(b@, pos as int, n);
            assert(has_at(b@, p as int, le64(n)));
        }
        r
    }
}

fn read_bytes(b: &Vec<u8>, pos: usize, n: u64) -> (r: Option<(Vec<u8>, usize)>)
    ensures
        match r {
            Some((v, p)) => v.len() == n && p == pos + n && has_at(b@, pos as int, v@),
            None => pos + n > b.len(),
        },
{
    if pos > b.len() || ((b.len() - pos) as u64) < n {
        return None;
    }
    let len = n as usize;
    let mut v: Vec<u8> = Vec::new();
    let mut i: usize = 0;
    while i < len
        invariant
            i <= len,
            len == n,
            pos + len <= b.len(),
            v@ == b@.subrange(pos as int, pos + i),
        decreases len - i,
    {
        v.push(b[pos + i]);
        i = i + 1;
        assert(v@ =~= b@.subrange(pos as int, pos + i));
    }
    Some((v, pos + len))
}

proof fn lemma_var_bytes_at(b: Seq<u8>, pos: int, v: Seq<u8>)
    requires
        has_at(b, pos, var_bytes(v)),
    ensures
        has_at(b, pos, compact_size(v.len() as u64)),
        has_at(b, pos + compact_size(v.len() as u64).len(), v),
{
    lemma_has_at_split(b, pos, compact_size(v.len() as u64), v);
}

fn read_var_bytes(b: &Vec<u8>, pos: usize) -> (r: Option<(Vec<u8>, usize)>)
    ensures
        match r {
            Some((v, p)) => p == pos + var_bytes(v@).len() && has_at(b@, pos as int, var_bytes(v@)),
            None => true,
        },
        forall|s: Seq<u8>|
            s.len() <= u64::MAX && #[trigger] has_at(b@, pos as int, var_bytes(s)) ==> (r matches Some((v, p)) && v@ == s && p == pos + var_bytes(s).len()),
{
    let (n, p) = match read_compact_size(b, pos) {
        Some(x) => x,
        None => {
            proof {
                assert forall|s: Seq<u8>| s.len() <= u64::MAX implies !#[trigger] has_at(b@, pos as int, var_bytes(s)) by {
                    if has_at(b@, pos as int, var_bytes(s)) {
                        lemma_var_bytes_at(b@, pos as int, s);
                    }
                }
            }
            return None;
        },
    };
    let r = match read_bytes(b, p, n) {
        Some((v, q)) => {
            assert(b@.subrange(pos as int, q as int) =~= b@.subrange(pos as int, p as int)
                + b@.subrange(p as int, q as int));
            Some((v, q))
        },
        None => None,
    };
    assert forall|s: Seq<u8>|
        s.len() <= u64::MAX && #[trigger] has_at(b@, pos as int, var_bytes(s)) implies (r matches Some((v, q)) && v@ == s && q == pos + var_bytes(s).len()) by {
        lemma_var_bytes_at(b@, pos as int, s);
        assert(n == s.len() as u64);
    }
    r
}

proof fn lemma_input_at(b: Seq<u8>, pos: int, i: TxInView)
    requires
        input_wf(i),
        has_at(b, pos, input_bytes(i)),
    ensures
        has_at(b, pos, i.prev_txid),
        has_at(b, pos + 32, le32(i.prev_vout)),
        has_at(b, pos + 36, var_bytes(i.script_sig)),
        has_at(b, pos + 36 + var_bytes(i.script_sig).len(), le32(i.sequence)),
{
    let a = i.prev_txid + le32(i.prev_vout);
    lemma_has_at_split(b, pos, a + var_bytes(i.script_sig), le32(i.sequence));
    lemma_has_at_split(b, pos, a, var_bytes(i.script_sig));
    lemma_has_at_split(b, pos, i.prev_txid, le32(i.prev_vout));
}

fn read_input(b: &Vec<u8>, pos: usize) -> (r: Option<(TxIn, usize)>)
    ensures
        match r {
            Some((i, p)) => p == pos + input_bytes(i@).len() && has_at(b@, pos as int, input_bytes(i@)),
            None => true,
        },
        forall|x: TxInView|
            input_wf(x) && #[trigger] has_at(b@, pos as int, input_bytes(x)) ==> (r matches Some((i, p)) && i@ == x && p == pos + input_bytes(x).len()),
{
    if pos > b.len() || b.len() - pos < 32 {
        proof {
            assert forall|x: TxInView| input_wf(x) implies !#[trigger] has_at(b@, pos as int, input_bytes(x)) by {
                if has_at(b@, pos as int, input_bytes(x)) {
                    lemma_input_at(b@, pos as int, x);
                }
            }
        }
        return None;
    }
    let mut txid = [0u8; 32];
    let mut k: usize = 0;
    while k < 32
        invariant
            k <= 32,
            pos + 32 <= b.len(),
            forall|j: int| 0 <= j < k ==> txid@[j] == b@[pos + j],
        decreases 32 - k,
    {
        txid[k] = b[pos + k];
        k = k + 1;
    }
    assert(txid@ =~= b@.subrange(pos as int, pos + 32));
    let after_txid = pos + 32;
    let r = match read_u32(b, after_txid) {
        None => None,
        Some((vout, after_vout)) => match read_var_bytes(b, after_vout) {
            None => None,
            Some((script_sig, after_script)) => match read_u32(b, after_script) {
                None => None,
                Some((sequence, end)) => {
                    let i = TxIn { previous_output: OutPoint { txid, vout }, script_sig, sequence };
                    assert(b@.subrange(pos as int, end as int) =~= b@.subrange(pos as int, after_txid as int)
                        + b@.subrange(after_txid as int, after_vout as int) + b@.subrange(after_vout as int, after_script as int)
                        + b@.subrange(after_script as int, end as int));
                    assert(b@.subrange(pos as int, end as int) =~= input_bytes(i@));
                    assert forall|x: TxInView|
                        input_wf(x) && #[trigger] has_at(b@, pos as int, input_bytes(x)) implies i@ == x by {
                        lemma_input_at(b@, pos as int, x);
                        assert(x.prev_txid =~= txid@);
                    }
                    Some((i, end))
                },
            },
        },
    };
    assert forall|x: TxInView|
        input_wf(x) && #[trigger] has_at(b@, pos as int, input_bytes(x)) implies (r matches Some((i, p)) && i@ == x && p == pos + input_bytes(x).len()) by {
        lemma_input_at(b@, pos as int, x);
        assert(has_at(b@, after_txid as int, le32(x.prev_vout)));
    }
    r
}

proof fn lemma_output_at(b: Seq<u8>, pos: int, o: TxOutView)
    requires
        has_at(b, pos, output_bytes(o)),
    ensures
        has_at(b, pos, le64(o.value)),
        has_at(b, pos + 8, var_bytes(o.script_pubkey)),
{
    lemma_has_at_split(b, pos, le64(o.value), var_bytes(o.script_pubkey));
}

fn read_output(b: &Vec<u8>, pos: usize) -> (r: Option<(TxOut, usize)>)
    ensures
        match r {
            Some((o, p)) => p == pos + output_bytes(o@).len() && has_at(b@, pos as int, output_bytes(o@)),
            None => true,
        },
        forall|x: TxOutView|
            x.script_pubkey.len() <= u64::MAX && #[trigger] has_at(b@, pos as int, output_bytes(x)) ==> (r matches Some((o, p)) && o@ == x && p == pos + output_bytes(x).len()),
{
    let r = match read_u64(b, pos) {
        None => None,
        Some((value, after_value)) => match read_var_bytes(b, after_value) {
            None => None,
            Some((script_pubkey, end)) => {
                let o = TxOut { value, script_pubkey };
                assert(b@.subrange(pos as int, end as int) =~= b@.subrange(pos as int, after_value as int)
                    + b@.subrange(after_value as int, end as int));
                assert(b@.subrange(pos as int, end as int) =~= output_bytes(o@));
                Some((o, end))
            },
        },
    };
    assert forall|x: TxOutView|
        x.script_pubkey.len() <= u64::MAX && #[trigger] has_at(b@, pos as int, output_bytes(x)) implies (r matches Some((o, p)) && o@ == x && p == pos + output_bytes(x).len()) by {
        lemma_output_at(b@, pos as int, x);
    }
    r
}

/// Whether `b` is the serialized form of the encodable transaction `t`.
pub open spec fn encodes(b: Seq<u8>, t: TransactionView) -> bool {
    wire_encodable(t) && tx_bytes(t) == b
}

proof fn lemma_has_at_prefix(b: Seq<u8>, pos: int, x: Seq<u8>, k: int)
    requires
        has_at(b, pos, x),
        0 <= k <= x.len(),
    ensures
        has_at(b, pos, x.subrange(0, k)),
{
    assert(b.subrange(pos, pos + k) =~= b.subrange(pos, pos + x.len()).subrange(0, k));
}

proof fn lemma_inputs_prefix(s: Seq<TxInView>, k: int)
    requires
        0 <= k <= s.len(),
    ensures
        inputs_bytes(s.take(k)).len() <= inputs_bytes(s).len(),
        inputs_bytes(s).subrange(0, inputs_bytes(s.take(k)).len() as int) == inputs_bytes(s.take(k)),
    decreases s.len(),
{
    if k < s.len() {
        lemma_inputs_prefix(s.drop_last(), k);
        assert(s.drop_last().take(k) =~= s.take(k));
        let whole = inputs_bytes(s.drop_last());
        let part = inputs_bytes(s.take(k));
        assert((whole + input_bytes(s.last())).subrange(0, part.len() as int) =~= whole.subrange(
            0,
            part.len() as int,
        ));
    } else {
        assert(s.take(k) =~= s);
        assert(inputs_bytes(s).subrange(0, inputs_bytes(s).len() as int) =~= inputs_bytes(s));
    }
}

proof fn lemma_outputs_prefix(s: Seq<TxOutView>, k: int)
    requires
        0 <= k <= s.len(),
    ensures
        outputs_bytes(s.take(k)).len() <= outputs_bytes(s).len(),
        outputs_bytes(s).subrange(0, outputs_bytes(s.take(k)).len() as int) == outputs_bytes(s.take(k)),
    decreases s.len(),
{
    if k < s.len() {
        lemma_outputs_prefix(s.drop_last(), k);
        assert(s.drop_last().take(k) =~= s.take(k));
        let whole = outputs_bytes(s.drop_last());
        let part = outputs_bytes(s.take(k));
        assert((whole + output_bytes(s.last())).subrange(0, part.len() as int) =~= whole.subrange(
            0,
            part.len() as int,
        ));
    } else {
        assert(s.take(k) =~= s);
        assert(outputs_bytes(s).subrange(0, outputs_bytes(s).len() as int) =~= outputs_bytes(s));
    }
}

proof fn lemma_input_in_inputs(b: Seq<u8>, start: int, s: Seq<TxInView>, i: int)
    requires
        has_at(b, start, inputs_bytes(s)),
        0 <= i < s.len(),
    ensures
        has_at(b, start + inputs_bytes(s.take(i)).len(), input_bytes(s[i])),
{
    lemma_inputs_prefix(s, i + 1);
    lemma_has_at_prefix(b, start, inputs_bytes(s), inputs_bytes(s.take(i + 1)).len() as int);
    assert(s.take(i + 1).drop_last() =~= s.take(i));
    lemma_has_at_split(b, start, inputs_bytes(s.take(i)), input_bytes(s[i]));
}

proof fn lemma_output_in_outputs(b: Seq<u8>, start: int, s: Seq<TxOutView>, i: int)
    requires
        has_at(b, start, outputs_bytes(s)),
        0 <= i < s.len(),
    ensures
        has_at(b, start + outputs_bytes(s.take(i)).len(), output_bytes(s[i])),
{
    lemma_outputs_prefix(s, i + 1);
    lemma_has_at_prefix(b, start, outputs_bytes(s), outputs_bytes(s.take(i + 1)).len() as int);
    assert(s.take(i + 1).drop_last() =~= s.take(i));
    lemma_has_at_split(b, start, outputs_bytes(s.take(i)), output_bytes(s[i]));
}

/// Where each part of a serialized transaction stands.
proof fn lemma_tx_at(b: Seq<u8>, t: TransactionView)
    requires
        tx_bytes(t) == b,
    ensures
        ({
            let c_in = compact_size(t.input.len() as u64);
            let c_out = compact_size(t.output.len() as u64);
            let o2: int = 4 + c_in.len() as int;
            let o3: int = o2 + inputs_bytes(t.input).len();
            let o4: int = o3 + c_out.len();
            let o5: int = o4 + outputs_bytes(t.output).len();
            &&& has_at(b, 0, le32(t.version))
            &&& has_at(b, 4, c_in)
            &&& has_at(b, o2, inputs_bytes(t.input))
            &&& has_at(b, o3, c_out)
            &&& has_at(b, o4, outputs_bytes(t.output))
            &&& has_at(b, o5, le32(t.lock_time))
            &&& b.len() == o5 + 4
        }),
{
    let a1 = le32(t.version);
    let a2 = a1 + compact_size(t.input.len() as u64);
    let a3 = a2 + inputs_bytes(t.input);
    let a4 = a3 + compact_size(t.output.len() as u64);
    let a5 = a4 + outputs_bytes(t.output);
    assert(b.subrange(0, b.len() as int) =~= b);
    lemma_has_at_split(b, 0, a5, le32(t.lock_time));
    lemma_has_at_split(b, 0, a4, outputs_bytes(t.output));
    lemma_has_at_split(b, 0, a3, compact_size(t.output.len() as u64));
    lemma_has_at_split(b, 0, a2, inputs_bytes(t.input));
    lemma_has_at_split(b, 0, a1, compact_size(t.input.len() as u64));
}

pub open spec fn inputs_wf(s: Seq<TxInView>) -> bool {
    forall|k: int| 0 <= k < s.len() ==> input_wf(#[trigger] s[k])
}

pub open spec fn outputs_wf(s: Seq<TxOutView>) -> bool {
    forall|k: int| 0 <= k < s.len() ==> (#[trigger] s[k]).script_pubkey.len() <= u64::MAX
}

/// Reads `n` inputs one after the other.
fn read_inputs(b: &Vec<u8>, start: usize, n: u64) -> (r: Option<(Vec<TxIn>, usize)>)
    ensures
        match r {
            Some((v, p)) => {
                &&& v.len() == n
                &&& p == start + inputs_bytes(v@.map_values(|x: TxIn| x@)).len()
                &&& has_at(b@, start as int, inputs_bytes(v@.map_values(|x: TxIn| x@)))
            },
            None => true,
        },
        forall|s: Seq<TxInView>|
            s.len() == n && inputs_wf(s) && #[trigger] has_at(b@, start as int, inputs_bytes(s)) ==> (r matches Some((v, p)) && v@.map_values(|x: TxIn| x@) == s),
{
    let ghost bs = b@;
    if start > b.len() {
        proof {
            assert forall|s: Seq<TxInView>| s.len() == n && inputs_wf(s) implies !#[trigger] has_at(bs, start as int, inputs_bytes(s)) by {}
        }
        return None;
    }
    let mut input: Vec<TxIn> = Vec::new();
    let mut pos = start;
    let mut i: u64 = 0;
    while i < n
        invariant
            bs == b@,
            start <= pos <= bs.len(),
            input.len() == i,
            i <= n,
            bs.subrange(start as int, pos as int) == inputs_bytes(input@.map_values(|x: TxIn| x@)),
            forall|s: Seq<TxInView>|
                s.len() == n && inputs_wf(s) && #[trigger] has_at(bs, start as int, inputs_bytes(s)) ==> input@.map_values(|x: TxIn| x@) == s.take(i as int),
        decreases n - i,
    {
        let ghost views = input@.map_values(|y: TxIn| y@);
        proof {
            assert forall|s: Seq<TxInView>|
                s.len() == n && inputs_wf(s) && #[trigger] has_at(bs, start as int, inputs_bytes(s)) implies has_at(bs, pos as int, input_bytes(s[i as int])) && input_wf(s[i as int]) by {
                lemma_input_in_inputs(bs, start as int, s, i as int);
            }
        }
        let (x, q) = match read_input(b, pos) {
            Some(v) => v,
            None => {
                return None;
            },
        };
        input.push(x);
        assert(input@.map_values(|y: TxIn| y@).drop_last() =~= views);
        assert(bs.subrange(start as int, q as int) =~= bs.subrange(start as int, pos as int) + bs.subrange(
            pos as int,
            q as int,
        ));
        proof {
            assert forall|s: Seq<TxInView>|
                s.len() == n && inputs_wf(s) && #[trigger] has_at(bs, start as int, inputs_bytes(s)) implies input@.map_values(|y: TxIn| y@) == s.take(i + 1) by {
                assert(input@.map_values(|y: TxIn| y@) =~= s.take(i + 1));
            }
        }
        pos = q;
        i = i + 1;
    }
    proof {
        assert forall|s: Seq<TxInView>|
            s.len() == n && inputs_wf(s) && #[trigger] has_at(bs, start as int, inputs_bytes(s)) implies input@.map_values(|y: TxIn| y@) == s by {
            assert(s.take(n as int) =~= s);
        }
    }
    Some((input, pos))
}

/// Reads `n` outputs one after the other.
fn read_outputs(b: &Vec<u8>, start: usize, n: u64) -> (r: Option<(Vec<TxOut>, usize)>)
    ensures
        match r {
            Some((v, p)) => {
                &&& v.len() == n
                &&& p == start + outputs_bytes(v@.map_values(|x: TxOut| x@)).len()
                &&& has_at(b@, start as int, outputs_bytes(v@.map_values(|x: TxOut| x@)))
            },
            None => true,
        },
        forall|s: Seq<TxOutView>|
            s.len() == n && outputs_wf(s) && #[trigger] has_at(b@, start as int, outputs_bytes(s)) ==> (r matches Some((v, p)) && v@.map_values(|x: TxOut| x@) == s),
{
    let ghost bs = b@;
    if start > b.len() {
        proof {
            assert forall|s: Seq<TxOutView>| s.len() == n && outputs_wf(s) implies !#[trigger] has_at(bs, start as int, outputs_bytes(s)) by {}
        }
        return None;
    }
    let mut output: Vec<TxOut> = Vec::new();
    let mut pos = start;
    let mut i: u64 = 0;
    while i < n
        invariant
            bs == b@,
            start <= pos <= bs.len(),
            output.len() == i,
            i <= n,
            bs.subrange(start as int, pos as int) == outputs_bytes(output@.map_values(|x: TxOut| x@)),
            forall|s: Seq<TxOutView>|
                s.len() == n && outputs_wf(s) && #[trigger] has_at(bs, start as int, outputs_bytes(s)) ==> output@.map_values(|x: TxOut| x@) == s.take(i as int),
        decreases n - i,
    {
        let ghost views = output@.map_values(|y: TxOut| y@);
        proof {
            assert forall|s: Seq<TxOutView>|
                s.len() == n && outputs_wf(s) && #[trigger] has_at(bs, start as int, outputs_bytes(s)) implies has_at(bs, pos as int, output_bytes(s[i as int])) && s[i as int].script_pubkey.len() <= u64::MAX by {
                lemma_output_in_outputs(bs, start as int, s, i as int);
            }
        }
        let (x, q) = match read_output(b, pos) {
            Some(v) => v,
            None => {
                return None;
            },
        };
        output.push(x);
        assert(output@.map_values(|y: TxOut| y@).drop_last() =~= views);
        assert(bs.subrange(start as int, q as int) =~= bs.subrange(start as int, pos as int) + bs.subrange(
            pos as int,
            q as int,
        ));
        proof {
            assert forall|s: Seq<TxOutView>|
                s.len() == n && outputs_wf(s) && #[trigger] has_at(bs, start as int, outputs_bytes(s)) implies output@.map_values(|y: TxOut| y@) == s.take(i + 1) by {
                assert(output@.map_values(|y: TxOut| y@) =~= s.take(i + 1));
            }
        }
        pos = q;
        i = i + 1;
    }
    proof {
        assert forall|s: Seq<TxOutView>|
            s.len() == n && outputs_wf(s) && #[trigger] has_at(bs, start as int, outputs_bytes(s)) implies output@.map_values(|y: TxOut| y@) == s by {
            assert(s.take(n as int) =~= s);
        }
    }
    Some((output, pos))
}

/// Reads a legacy transaction that fills `bytes` exactly. An input count of
/// zero is refused: in that place the byte marks the witness serialization.
/// What is read serializes back to `bytes`; and the serialized form of any
/// encodable transaction is read back as that transaction.
pub fn deserialize_transaction(bytes: &Vec<u8>) -> (r: Option<Transaction>)
    ensures
        r matches Some(t) ==> tx_bytes(t@) == bytes@ && t.input.len() >= 1,
        forall|t: TransactionView| #[trigger] encodes(bytes@, t) ==> (r matches Some(x) && x@ == t),
{
    let ghost b = bytes@;
    let r = match read_u32(bytes, 0) {
        None => None,
        Some((version, after_version)) => match read_compact_size(bytes, after_version) {
            None => None,
            Some((n_in, after_in_count)) => if n_in == 0 {
                None
            } else {
                match read_inputs(bytes, after_in_count, n_in) {
                    None => None,
                    Some((input, after_inputs)) => match read_compact_size(bytes, after_inputs) {
                        None => None,
                        Some((n_out, after_out_count)) => match read_outputs(bytes, after_out_count, n_out) {
                            None => None,
                            Some((output, after_outputs)) => match read_u32(bytes, after_outputs) {
                                None => None,
                                Some((lock_time, end)) => if end != bytes.len() {
                                    None
                                } else {
                                    let t = Transaction { version, lock_time, input, output };
                                    assert(b =~= b.subrange(0, after_version as int) + b.subrange(
                                        after_version as int,
                                        after_in_count as int,
                                    ) + b.subrange(after_in_count as int, after_inputs as int) + b.subrange(
                                        after_inputs as int,
                                        after_out_count as int,
                                    ) + b.subrange(after_out_count as int, after_outputs as int) + b.subrange(
                                        after_outputs as int,
                                        end as int,
                                    ));
                                    assert(tx_bytes(t@) =~= b);
                                    Some(t)
                                },
                            },
                        },
                    },
                }
            },
        },
    };
    proof {
        assert forall|t: TransactionView| #[trigger] encodes(b, t) implies (r matches Some(x) && x@ == t) by {
            lemma_tx_at(b, t);
            assert(inputs_wf(t.input));
            assert(outputs_wf(t.output));
            let x = r->Some_0;
            assert(x@.input =~= t.input);
            assert(x@.output =~= t.output);
        }
    }
    r
}

/// Writing and reading back agree: the bytes that `serialize_transaction`
/// writes for a transaction with at least one input are the serialized form of
/// an encodable transaction, so `deserialize_transaction` reads them back as
/// that same transaction, and serializing what was read gives the same bytes.
pub proof fn lemma_reserialization(tx: Transaction)
    requires
        tx.input.len() >= 1,
    ensures
        encodes(tx_bytes(tx@), tx@),
        forall|x: TransactionView| #[trigger] encodes(tx_bytes(tx@), x) ==> tx_bytes(x) == tx_bytes(tx@),
{
    assert(tx@.input.len() == tx.input.len() && tx@.output.len() == tx.output.len());
    assert forall|k: int| 0 <= k < tx@.input.len() implies input_wf(#[trigger] tx@.input[k]) by {
        assert(tx.input@[k].previous_output.txid@.len() == 32);
        assert(tx.input@[k].script_sig.len() == tx.input@[k].script_sig@.len());
    }
    assert forall|k: int| 0 <= k < tx@.output.len() implies (#[trigger] tx@.output[k]).script_pubkey.len() <= u64::MAX by {
        assert(tx.output@[k].script_pubkey.len() == tx.output@[k].script_pubkey@.len());
    }
}

} // verus!

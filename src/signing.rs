//! Legacy (pre-segwit) signature hashes and the assembly of signed inputs.

use vstd::prelude::*;
use crate::encoding::{le32, serialize_transaction, tx_bytes};
use crate::error::WalletError;
use crate::transaction::{
    copy_bytes, Address, AddressKind, Transaction, TransactionView, TxIn, TxInView, TxOut,
};

verus! {

/// Sighash type that commits to all inputs and all outputs.
pub const SIGHASH_ALL: u8 = 1;

/// Longest data that a single direct push opcode can carry.
pub const MAX_DIRECT_PUSH: usize = 75;

/// The double SHA-256 digest of `data`.
pub uninterp spec fn sha256d_of(data: Seq<u8>) -> Seq<u8>;

/// The DER encoding of the ECDSA signature given in compact form (`r || s`),
/// or `None` where the bytes are no valid signature.
pub uninterp spec fn der_of_compact(compact: Seq<u8>) -> Option<Seq<u8>>;

/// Relies on bitcoin_hashes' `sha256d::Hash::hash` (re-exported by the
/// bitcoin crate): the double SHA-256 of the bytes, in hash byte order.
#[verifier::external_body]
pub(crate) fn sha256d(data: &Vec<u8>) -> (r: [u8; 32])
    ensures
        r@ == sha256d_of(data@),
{
    let h = <bitcoin::hashes::sha256d::Hash as bitcoin::hashes::Hash>::hash(data.as_slice());
    <bitcoin::hashes::sha256d::Hash as bitcoin::hashes::Hash>::to_byte_array(h)
}

/// Relies on secp256k1's `ecdsa::Signature::from_compact`, which parses 64
/// bytes `r || s` and fails on any other length or on an out-of-range value,
/// and on its `serialize_der` of the parsed signature.
#[verifier::external_body]
pub(crate) fn der_from_compact(compact: &[u8; 64]) -> (r: Option<Vec<u8>>)
    ensures
        match r {
            Some(d) => der_of_compact(compact@) == Some(d@),
            None => der_of_compact(compact@) is None,
        },
{
    bitcoin::secp256k1::ecdsa::Signature::from_compact(compact).ok().map(
        |s| s.serialize_der().to_vec(),
    )
}

/// A script element pushing `data` with a direct push opcode.
pub open spec fn push_data(data: Seq<u8>) -> Seq<u8> {
    seq![data.len() as u8] + data
}

/// The unlocking script of a pay-to-pubkey-hash input: the signature with its
/// sighash type byte, then the public key.
pub open spec fn p2pkh_script_sig(der_sig: Seq<u8>, pubkey: Seq<u8>) -> Seq<u8> {
    push_data(der_sig.push(SIGHASH_ALL)) + push_data(pubkey)
}

/// The transaction as hashed for input `index`: that input's script replaced
/// by `script_code`, every other input's script emptied.
pub open spec fn sighash_view(tx: TransactionView, index: int, script_code: Seq<u8>) -> TransactionView {
    TransactionView {
        version: tx.version,
        lock_time: tx.lock_time,
        input: Seq::new(
            tx.input.len(),
            |k: int|
                TxInView {
                    prev_txid: tx.input[k].prev_txid,
                    prev_vout: tx.input[k].prev_vout,
                    script_sig: if k == index {
                        script_code
                    } else {
                        Seq::empty()
                    },
                    sequence: tx.input[k].sequence,
                },
        ),
        output: tx.output,
    }
}

/// The bytes whose double SHA-256 is the legacy signature hash of input
/// `index` with sighash type ALL.
pub open spec fn sighash_preimage(tx: TransactionView, index: int, script_code: Seq<u8>) -> Seq<u8> {
    tx_bytes(sighash_view(tx, index, script_code)) + le32(SIGHASH_ALL as u32)
}

/// The transaction with input `k` unlocked by `der_sigs[k]` and `pubkey`.
pub open spec fn signed_view(tx: TransactionView, der_sigs: Seq<Seq<u8>>, pubkey: Seq<u8>) -> TransactionView {
    TransactionView {
        version: tx.version,
        lock_time: tx.lock_time,
        input: Seq::new(
            tx.input.len(),
            |k: int|
                TxInView {
                    prev_txid: tx.input[k].prev_txid,
                    prev_vout: tx.input[k].prev_vout,
                    script_sig: p2pkh_script_sig(der_sigs[k], pubkey),
                    sequence: tx.input[k].sequence,
                },
        ),
        output: tx.output,
    }
}

/// Whether every signature (with its type byte) and the key fit a direct push.
pub open spec fn pushes_fit(der_sigs: Seq<Seq<u8>>, pubkey: Seq<u8>) -> bool {
    &&& pubkey.len() <= MAX_DIRECT_PUSH
    &&& forall|k: int| 0 <= k < der_sigs.len() ==> #[trigger] der_sigs[k].len() < MAX_DIRECT_PUSH
}

/// The serialized transaction hashed for input `index`, followed by the
/// sighash type as four little-endian bytes.
pub fn sighash_preimage_bytes(tx: &Transaction, index: usize, script_code: &Vec<u8>) -> (r: Vec<u8>)
    requires
        index < tx.input.len(),
    ensures
        r@ == sighash_preimage(tx@, index as int, script_code@),
{
    let mut inputs: Vec<TxIn> = Vec::new();
    let mut k: usize = 0;
    while k < tx.input.len()
        invariant
            k <= tx.input.len(),
            inputs.len() == k,
            forall|j: int|
                0 <= j < k ==> #[trigger] inputs@[j]@ == sighash_view(
                    tx@,
                    index as int,
                    script_code@,
                ).input[j],
        decreases tx.input.len() - k,
    {
        let script_sig = if k == index {
            copy_bytes(script_code)
        } else {
            Vec::new()
        };
        inputs.push(
            TxIn {
                previous_output: tx.input[k].previous_output,
                script_sig,
                sequence: tx.input[k].sequence,
            },
        );
        k = k + 1;
    }
    let mut outputs: Vec<TxOut> = Vec::new();
    let mut j: usize = 0;
    while j < tx.output.len()
        invariant
            j <= tx.output.len(),
            outputs.len() == j,
            forall|i: int| 0 <= i < j ==> #[trigger] outputs@[i]@ == tx@.output[i],
        decreases tx.output.len() - j,
    {
        outputs.push(
            TxOut {
                value: tx.output[j].value,
                script_pubkey: copy_bytes(&tx.output[j].script_pubkey),
            },
        );
        j = j + 1;
    }
    let view_tx = Transaction {
        version: tx.version,
        lock_time: tx.lock_time,
        input: inputs,
        output: outputs,
    };
    assert(view_tx@.input =~= sighash_view(tx@, index as int, script_code@).input);
    assert(view_tx@.output =~= tx@.output);
    assert(view_tx@ == sighash_view(tx@, index as int, script_code@));
    let mut bytes = serialize_transaction(&view_tx);
    crate::encoding::push_u32_le(&mut bytes, SIGHASH_ALL as u32);
    bytes
}

/// The legacy signature hash (type ALL) of input `index`, spending an output
/// locked by `script_code`.
pub fn legacy_signature_hash(tx: &Transaction, index: usize, script_code: &Vec<u8>) -> (r: [u8; 32])
    requires
        index < tx.input.len(),
    ensures
        r@ == sha256d_of(sighash_preimage(tx@, index as int, script_code@)),
{
    let preimage = sighash_preimage_bytes(tx, index, script_code);
    sha256d(&preimage)
}

} // verus!

verus! {

/// The view of a list of byte vectors.
pub open spec fn bytes_views(v: Seq<Vec<u8>>) -> Seq<Seq<u8>> {
    v.map_values(|b: Vec<u8>| b@)
}

/// Whether every compact signature has a DER encoding.
pub open spec fn all_der(compact: Seq<[u8; 64]>) -> bool {
    forall|k: int| 0 <= k < compact.len() ==> (#[trigger] der_of_compact(compact[k]@)) is Some
}

/// The DER encodings of the compact signatures.
pub open spec fn der_seq(compact: Seq<[u8; 64]>) -> Seq<Seq<u8>> {
    Seq::new(compact.len(), |k: int| der_of_compact(compact[k]@)->0)
}

/// The transaction id, in hash byte order: the double SHA-256 of the
/// serialized transaction.
pub fn compute_txid(tx: &Transaction) -> (r: [u8; 32])
    ensures
        r@ == sha256d_of(tx_bytes(tx@)),
{
    let bytes = serialize_transaction(tx);
    sha256d(&bytes)
}

/// The digests to sign, one per input in order, for a transaction spending
/// outputs locked by the source address's script.
pub fn legacy_sighashes(tx: &Transaction, own_address: &Address) -> (r: Result<Vec<[u8; 32]>, WalletError>)
    ensures
        own_address.kind != AddressKind::P2pkh ==> r == Err::<Vec<[u8; 32]>, WalletError>(
            WalletError::UnsupportedAddressKind,
        ),
        own_address.kind == AddressKind::P2pkh ==> r is Ok,
        r matches Ok(h) ==> h.len() == tx.input.len() && forall|k: int|
            0 <= k < h.len() ==> (#[trigger] h@[k])@ == sha256d_of(
                sighash_preimage(tx@, k, own_address.script_pubkey@),
            ),
{
    if !matches!(own_address.kind, AddressKind::P2pkh) {
        return Err(WalletError::UnsupportedAddressKind);
    }
    let mut hashes: Vec<[u8; 32]> = Vec::new();
    let mut k: usize = 0;
    while k < tx.input.len()
        invariant
            k <= tx.input.len(),
            hashes.len() == k,
            forall|j: int|
                0 <= j < k ==> (#[trigger] hashes@[j])@ == sha256d_of(
                    sighash_preimage(tx@, j, own_address.script_pubkey@),
                ),
        decreases tx.input.len() - k,
    {
        let h = legacy_signature_hash(tx, k, &own_address.script_pubkey);
        hashes.push(h);
        k = k + 1;
    }
    Ok(hashes)
}

/// The unlocking script of a pay-to-pubkey-hash input.
pub fn build_script_sig(der_sig: &Vec<u8>, pubkey: &Vec<u8>) -> (r: Vec<u8>)
    requires
        der_sig.len() < MAX_DIRECT_PUSH,
        pubkey.len() <= MAX_DIRECT_PUSH,
    ensures
        r@ == p2pkh_script_sig(der_sig@, pubkey@),
{
    let mut s: Vec<u8> = Vec::new();
    s.push((der_sig.len() + 1) as u8);
    crate::encoding::push_bytes(&mut s, der_sig);
    s.push(SIGHASH_ALL);
    s.push(pubkey.len() as u8);
    crate::encoding::push_bytes(&mut s, pubkey);
    assert(s@ =~= p2pkh_script_sig(der_sig@, pubkey@));
    s
}

/// Sets the unlocking script of every input from its DER signature and the
/// source public key.
pub fn attach_signatures(
    tx: &Transaction,
    own_address: &Address,
    own_public_key: &Vec<u8>,
    der_sigs: &Vec<Vec<u8>>,
) -> (r: Result<Transaction, WalletError>)
    requires
        der_sigs.len() == tx.input.len(),
    ensures
        own_address.kind != AddressKind::P2pkh ==> r == Err::<Transaction, WalletError>(
            WalletError::UnsupportedAddressKind,
        ),
        own_address.kind == AddressKind::P2pkh && !pushes_fit(bytes_views(der_sigs@), own_public_key@)
            ==> r == Err::<Transaction, WalletError>(WalletError::PushTooLarge),
        own_address.kind == AddressKind::P2pkh && pushes_fit(bytes_views(der_sigs@), own_public_key@)
            ==> (r matches Ok(s) && s@ == signed_view(tx@, bytes_views(der_sigs@), own_public_key@)),
{
    if !matches!(own_address.kind, AddressKind::P2pkh) {
        return Err(WalletError::UnsupportedAddressKind);
    }
    let ghost sigs = bytes_views(der_sigs@);
    if own_public_key.len() > MAX_DIRECT_PUSH {
        return Err(WalletError::PushTooLarge);
    }
    let mut inputs: Vec<TxIn> = Vec::new();
    let mut k: usize = 0;
    while k < tx.input.len()
        invariant
            k <= tx.input.len(),
            der_sigs.len() == tx.input.len(),
            own_address.kind == AddressKind::P2pkh,
            sigs == bytes_views(der_sigs@),
            own_public_key.len() <= MAX_DIRECT_PUSH,
            inputs.len() == k,
            forall|j: int| 0 <= j < k ==> #[trigger] sigs[j].len() < MAX_DIRECT_PUSH,
            forall|j: int|
                0 <= j < k ==> #[trigger] inputs@[j]@ == signed_view(
                    tx@,
                    sigs,
                    own_public_key@,
                ).input[j],
        decreases tx.input.len() - k,
    {
        if der_sigs[k].len() >= MAX_DIRECT_PUSH {
            assert(sigs[k as int].len() >= MAX_DIRECT_PUSH);
            return Err(WalletError::PushTooLarge);
        }
        let script_sig = build_script_sig(&der_sigs[k], own_public_key);
        inputs.push(
            TxIn {
                previous_output: tx.input[k].previous_output,
                script_sig,
                sequence: tx.input[k].sequence,
            },
        );
        k = k + 1;
    }
    let mut outputs: Vec<TxOut> = Vec::new();
    let mut j: usize = 0;
    while j < tx.output.len()
        invariant
            j <= tx.output.len(),
            outputs.len() == j,
            forall|i: int| 0 <= i < j ==> #[trigger] outputs@[i]@ == tx@.output[i],
        decreases tx.output.len() - j,
    {
        outputs.push(
            TxOut {
                value: tx.output[j].value,
                script_pubkey: copy_bytes(&tx.output[j].script_pubkey),
            },
        );
        j = j + 1;
    }
    let signed = Transaction {
        version: tx.version,
        lock_time: tx.lock_time,
        input: inputs,
        output: outputs,
    };
    assert(signed@.input =~= signed_view(tx@, sigs, own_public_key@).input);
    assert(signed@.output =~= tx@.output);
    Ok(signed)
}

/// Signs every input from its compact (`r || s`) signature over the digest
/// that `legacy_sighashes` gives for it: each is DER-encoded, given the
/// sighash type byte and pushed together with the source public key.
pub fn sign_transaction(
    tx: &Transaction,
    own_address: &Address,
    own_public_key: &Vec<u8>,
    signatures: &Vec<[u8; 64]>,
) -> (r: Result<Transaction, WalletError>)
    requires
        signatures.len() == tx.input.len(),
    ensures
        own_address.kind != AddressKind::P2pkh ==> r == Err::<Transaction, WalletError>(
            WalletError::UnsupportedAddressKind,
        ),
        own_address.kind == AddressKind::P2pkh && !all_der(signatures@) ==> r == Err::<
            Transaction,
            WalletError,
        >(WalletError::InvalidSignature),
        own_address.kind == AddressKind::P2pkh && all_der(signatures@) && !pushes_fit(
            der_seq(signatures@),
            own_public_key@,
        ) ==> r == Err::<Transaction, WalletError>(WalletError::PushTooLarge),
        own_address.kind == AddressKind::P2pkh && all_der(signatures@) && pushes_fit(
            der_seq(signatures@),
            own_public_key@,
        ) ==> (r matches Ok(s) && s@ == signed_view(tx@, der_seq(signatures@), own_public_key@)),
{
    if !matches!(own_address.kind, AddressKind::P2pkh) {
        return Err(WalletError::UnsupportedAddressKind);
    }
    let mut ders: Vec<Vec<u8>> = Vec::new();
    let mut k: usize = 0;
    while k < signatures.len()
        invariant
            k <= signatures.len(),
            own_address.kind == AddressKind::P2pkh,
            ders.len() == k,
            forall|j: int| 0 <= j < k ==> (#[trigger] der_of_compact(signatures@[j]@)) is Some,
            forall|j: int|
                0 <= j < k ==> Some((#[trigger] ders@[j])@) == der_of_compact(signatures@[j]@),
        decreases signatures.len() - k,
    {
        match der_from_compact(&signatures[k]) {
            Some(d) => {
                ders.push(d);
            },
            None => {
                return Err(WalletError::InvalidSignature);
            },
        }
        k = k + 1;
    }
    assert(bytes_views(ders@) =~= der_seq(signatures@));
    attach_signatures(tx, own_address, own_public_key, &ders)
}

} // verus!

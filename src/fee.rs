//! The fee fixed point: a fee that equals the fee rate applied to the size of
//! the transaction built with it, once signed.

use vstd::prelude::*;
use crate::encoding::{serialize_transaction, tx_vsize};
use crate::error::WalletError;
use crate::selection::{assembled, build_transaction_with_fee};
use crate::signing::{attach_signatures, bytes_views, der_of_compact, signed_view, MAX_DIRECT_PUSH};
use crate::transaction::{copy_bytes, Address, AddressKind, Transaction, TransactionView, Utxo};

verus! {

/// Rounds of fee refinement tried before giving up.
pub const MAX_FEE_ROUNDS: u32 = 100;

/// Fee rates are given in millisatoshi per virtual byte.
pub const MILLI: u64 = 1000;

/// The compact signature that stands in for a real one when only the size of
/// the signed transaction matters: `r` and `s` are 32 bytes with the high bit
/// clear, so its DER encoding is as long as that of a real signature whose
/// two integers need no padding byte.
pub open spec fn size_probe_compact() -> Seq<u8> {
    Seq::new(64, |i: int| 1u8)
}

/// The same signature for each of `n` inputs.
pub open spec fn probe_sigs(n: nat, probe: Seq<u8>) -> Seq<Seq<u8>> {
    Seq::new(n, |k: int| probe)
}

/// Virtual size of the transaction once every input carries the probe signature.
pub open spec fn probe_signed_vsize(tx: TransactionView, probe: Seq<u8>, pubkey: Seq<u8>) -> nat {
    tx_vsize(signed_view(tx, probe_sigs(tx.input.len(), probe), pubkey))
}

/// The fee, in satoshi, for `vsize` virtual bytes at `rate` millisatoshi per byte.
pub open spec fn fee_for_vsize(vsize: nat, rate: u64) -> int {
    (vsize * rate) / (MILLI as int)
}

/// Refines `fee` for at most `rounds` more rounds: the transaction built with
/// it is kept once the fee its signed size asks for is `fee` itself.
pub open spec fn fee_rounds(
    utxos: Seq<Utxo>,
    own: Seq<u8>,
    dst: Seq<u8>,
    amount: u64,
    rate: u64,
    probe: Seq<u8>,
    pubkey: Seq<u8>,
    fee: u64,
    rounds: nat,
) -> Result<(TransactionView, u64), WalletError>
    decreases rounds,
{
    match assembled(utxos, own, dst, amount, fee) {
        Err(e) => Err(e),
        Ok(p) => {
            let next = fee_for_vsize(probe_signed_vsize(p.0, probe, pubkey), rate);
            if next == fee {
                Ok((p.0, fee))
            } else if rounds == 0 || next > u64::MAX {
                Err(WalletError::FeeConvergenceFailed)
            } else {
                fee_rounds(utxos, own, dst, amount, rate, probe, pubkey, next as u64, (rounds - 1) as nat)
            }
        },
    }
}

/// The unsigned transaction at the fee fixed point, starting from a zero fee,
/// with the signature `probe` standing in for each real one.
pub open spec fn converged(
    utxos: Seq<Utxo>,
    own_kind: AddressKind,
    own: Seq<u8>,
    dst: Seq<u8>,
    amount: u64,
    rate: u64,
    probe: Seq<u8>,
    pubkey: Seq<u8>,
) -> Result<(TransactionView, u64), WalletError> {
    if own_kind != AddressKind::P2pkh {
        Err(WalletError::UnsupportedAddressKind)
    } else if pubkey.len() > MAX_DIRECT_PUSH || probe.len() >= MAX_DIRECT_PUSH {
        Err(WalletError::PushTooLarge)
    } else {
        fee_rounds(utxos, own, dst, amount, rate, probe, pubkey, 0, MAX_FEE_ROUNDS as nat)
    }
}

/// Finds the fee fixed point with `probe_der` as the DER signature of every
/// input, and returns the unsigned transaction built with that fee, and the fee.
pub fn converge_fee(
    own_public_key: &Vec<u8>,
    own_address: &Address,
    own_utxos: &Vec<Utxo>,
    dst_address: &Address,
    amount: u64,
    fee_per_vbyte: u64,
    probe_der: &Vec<u8>,
) -> (r: Result<(Transaction, u64), WalletError>)
    requires
        amount > 0,
    ensures
        match r {
            Ok((tx, fee)) => converged(
                own_utxos@,
                own_address.kind,
                own_address.script_pubkey@,
                dst_address.script_pubkey@,
                amount,
                fee_per_vbyte,
                probe_der@,
                own_public_key@,
            ) == Ok::<(TransactionView, u64), WalletError>((tx@, fee)),
            Err(e) => converged(
                own_utxos@,
                own_address.kind,
                own_address.script_pubkey@,
                dst_address.script_pubkey@,
                amount,
                fee_per_vbyte,
                probe_der@,
                own_public_key@,
            ) == Err::<(TransactionView, u64), WalletError>(e),
        },
{
    let ghost u = own_utxos@;
    let ghost own = own_address.script_pubkey@;
    let ghost dst = dst_address.script_pubkey@;
    let ghost probe = probe_der@;
    let ghost pk = own_public_key@;
    if !matches!(own_address.kind, AddressKind::P2pkh) {
        return Err(WalletError::UnsupportedAddressKind);
    }
    if own_public_key.len() > MAX_DIRECT_PUSH || probe_der.len() >= MAX_DIRECT_PUSH {
        return Err(WalletError::PushTooLarge);
    }
    let mut fee: u64 = 0;
    let mut rounds: u32 = MAX_FEE_ROUNDS;
    loop
        invariant
            amount > 0,
            own_address.kind == AddressKind::P2pkh,
            own_public_key.len() <= MAX_DIRECT_PUSH,
            probe_der.len() < MAX_DIRECT_PUSH,
            u == own_utxos@,
            own == own_address.script_pubkey@,
            dst == dst_address.script_pubkey@,
            probe == probe_der@,
            pk == own_public_key@,
            fee_rounds(u, own, dst, amount, fee_per_vbyte, probe, pk, 0, MAX_FEE_ROUNDS as nat)
                == fee_rounds(u, own, dst, amount, fee_per_vbyte, probe, pk, fee, rounds as nat),
        decreases rounds,
    {
        let tx = match build_transaction_with_fee(own_utxos, own_address, dst_address, amount, fee) {
            Ok((tx, _prevouts)) => tx,
            Err(e) => {
                return Err(e);
            },
        };
        let mut sigs: Vec<Vec<u8>> = Vec::new();
        let mut k: usize = 0;
        while k < tx.input.len()
            invariant
                k <= tx.input.len(),
                sigs.len() == k,
                forall|j: int| 0 <= j < k ==> (#[trigger] sigs@[j])@ == probe,
                probe == probe_der@,
            decreases tx.input.len() - k,
        {
            sigs.push(copy_bytes(probe_der));
            k = k + 1;
        }
        assert(bytes_views(sigs@) =~= probe_sigs(tx@.input.len(), probe));
        let signed = match attach_signatures(&tx, own_address, own_public_key, &sigs) {
            Ok(s) => s,
            Err(e) => {
                return Err(e);
            },
        };
        let vsize = serialize_transaction(&signed).len();
        proof {
            assert(vsize as nat * fee_per_vbyte as nat <= 0xffff_ffff_ffff_ffff * 0xffff_ffff_ffff_ffffnat)
                by (nonlinear_arith)
                requires
                    vsize <= 0xffff_ffff_ffff_ffffnat,
                    fee_per_vbyte <= 0xffff_ffff_ffff_ffffnat,
            ;
        }
        let next: u128 = (vsize as u128) * (fee_per_vbyte as u128) / (MILLI as u128);
        if next == fee as u128 {
            return Ok((tx, fee));
        }
        if rounds == 0 || next > u64::MAX as u128 {
            return Err(WalletError::FeeConvergenceFailed);
        }
        fee = next as u64;
        rounds = rounds - 1;
    }
}

} // verus!

verus! {

/// Builds the unsigned transaction that pays `amount` to the destination at
/// the fee fixed point for `fee_per_vbyte` millisatoshi per virtual byte. The
/// size is measured with a fixed stand-in signature on every input.
pub fn build_transaction(
    own_public_key: &Vec<u8>,
    own_address: &Address,
    own_utxos: &Vec<Utxo>,
    dst_address: &Address,
    amount: u64,
    fee_per_vbyte: u64,
) -> (r: Result<Transaction, WalletError>)
    requires
        amount > 0,
    ensures
        der_of_compact(size_probe_compact()) is None ==> r == Err::<Transaction, WalletError>(
            WalletError::InvalidSignature,
        ),
        der_of_compact(size_probe_compact()) matches Some(probe) ==> match r {
            Ok(tx) => converged(
                own_utxos@,
                own_address.kind,
                own_address.script_pubkey@,
                dst_address.script_pubkey@,
                amount,
                fee_per_vbyte,
                probe,
                own_public_key@,
            ) matches Ok(c) && c.0 == tx@,
            Err(e) => converged(
                own_utxos@,
                own_address.kind,
                own_address.script_pubkey@,
                dst_address.script_pubkey@,
                amount,
                fee_per_vbyte,
                probe,
                own_public_key@,
            ) == Err::<(TransactionView, u64), WalletError>(e),
        },
{
    let mut compact = [0u8; 64];
    let mut i: usize = 0;
    while i < 64
        invariant
            i <= 64,
            forall|j: int| 0 <= j < i ==> compact@[j] == 1u8,
        decreases 64 - i,
    {
        compact[i] = 1u8;
        i = i + 1;
    }
    assert(compact@ =~= size_probe_compact());
    let probe = match crate::signing::der_from_compact(&compact) {
        Some(d) => d,
        None => {
            return Err(WalletError::InvalidSignature);
        },
    };
    match converge_fee(
        own_public_key,
        own_address,
        own_utxos,
        dst_address,
        amount,
        fee_per_vbyte,
        &probe,
    ) {
        Ok((tx, _fee)) => Ok(tx),
        Err(e) => Err(e),
    }
}

} // verus!

verus! {

proof fn lemma_fee_rounds_fixed_point(
    utxos: Seq<Utxo>,
    own: Seq<u8>,
    dst: Seq<u8>,
    amount: u64,
    rate: u64,
    probe: Seq<u8>,
    pubkey: Seq<u8>,
    fee: u64,
    rounds: nat,
)
    requires
        fee_rounds(utxos, own, dst, amount, rate, probe, pubkey, fee, rounds) is Ok,
    ensures
        ({
            let (tx, f) = fee_rounds(utxos, own, dst, amount, rate, probe, pubkey, fee, rounds)->Ok_0;
            &&& assembled(utxos, own, dst, amount, f) matches Ok(p) && p.0 == tx
            &&& f == fee_for_vsize(probe_signed_vsize(tx, probe, pubkey), rate)
        }),
    decreases rounds,
{
    if let Ok(p) = assembled(utxos, own, dst, amount, fee) {
        let next = fee_for_vsize(probe_signed_vsize(p.0, probe, pubkey), rate);
        if next != fee && rounds > 0 && next <= u64::MAX {
            lemma_fee_rounds_fixed_point(
                utxos,
                own,
                dst,
                amount,
                rate,
                probe,
                pubkey,
                next as u64,
                (rounds - 1) as nat,
            );
        }
    }
}

/// The fee found is a fixed point: the transaction returned is the one built
/// with that fee, and that transaction, signed, asks for exactly that fee.
pub proof fn lemma_fee_fixed_point(
    utxos: Seq<Utxo>,
    own_kind: AddressKind,
    own: Seq<u8>,
    dst: Seq<u8>,
    amount: u64,
    rate: u64,
    probe: Seq<u8>,
    pubkey: Seq<u8>,
)
    requires
        converged(utxos, own_kind, own, dst, amount, rate, probe, pubkey) is Ok,
    ensures
        ({
            let (tx, fee) = converged(utxos, own_kind, own, dst, amount, rate, probe, pubkey)->Ok_0;
            &&& assembled(utxos, own, dst, amount, fee) matches Ok(p) && p.0 == tx
            &&& fee == fee_for_vsize(probe_signed_vsize(tx, probe, pubkey), rate)
        }),
{
    lemma_fee_rounds_fixed_point(
        utxos,
        own,
        dst,
        amount,
        rate,
        probe,
        pubkey,
        0,
        MAX_FEE_ROUNDS as nat,
    );
}

/// Two runs of the fee search on the same outputs, addresses, amount, rate and
/// stand-in signature end alike: with the same fee and the same transaction,
/// or with the same error.
pub proof fn lemma_fee_deterministic(
    utxos: Seq<Utxo>,
    own_kind: AddressKind,
    own: Seq<u8>,
    dst: Seq<u8>,
    amount: u64,
    rate: u64,
    probe: Seq<u8>,
    pubkey: Seq<u8>,
    first: Result<(TransactionView, u64), WalletError>,
    second: Result<(TransactionView, u64), WalletError>,
)
    requires
        first == converged(utxos, own_kind, own, dst, amount, rate, probe, pubkey),
        second == converged(utxos, own_kind, own, dst, amount, rate, probe, pubkey),
    ensures
        first == second,
        first matches Ok(a) ==> (second matches Ok(b) && a.1 == b.1 && a.0.input == b.0.input
            && a.0.output == b.0.output),
{
}

} // verus!

verus! {

/// Fee rate, in millisatoshi per byte, used when no fee data is reported.
pub const FALLBACK_FEE_PER_BYTE: u64 = 2000;

/// Position of the median among the reported fee percentiles.
pub const MEDIAN_PERCENTILE: usize = 50;

/// The fee rate to pay, from the reported fee percentiles (in millisatoshi
/// per byte): their median, or the fallback rate where none are reported.
pub fn fee_per_byte_from_percentiles(percentiles: &Vec<u64>) -> (r: u64)
    requires
        percentiles.len() == 0 || percentiles.len() > MEDIAN_PERCENTILE,
    ensures
        percentiles.len() == 0 ==> r == FALLBACK_FEE_PER_BYTE,
        percentiles.len() > 0 ==> r == percentiles@[MEDIAN_PERCENTILE as int],
{
    if percentiles.len() == 0 {
        FALLBACK_FEE_PER_BYTE
    } else {
        percentiles[MEDIAN_PERCENTILE]
    }
}

} // verus!

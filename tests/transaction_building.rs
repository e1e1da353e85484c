use alloy_wallet::encoding::serialize_transaction;
use alloy_wallet::error::WalletError;
use alloy_wallet::fee::{build_transaction, converge_fee, fee_per_byte_from_percentiles};
use alloy_wallet::selection::{build_transaction_with_fee, select_utxos};
use alloy_wallet::signing::attach_signatures;
use alloy_wallet::transaction::{Address, AddressKind, OutPoint, Transaction, TxOut, Utxo};

fn utxo(tag: u8, value: u64) -> Utxo {
    Utxo { outpoint: OutPoint { txid: [tag; 32], vout: tag as u32 }, value }
}

fn p2pkh_script(tag: u8) -> Vec<u8> {
    let mut s = vec![0x76, 0xa9, 0x14];
    s.extend_from_slice(&[tag; 20]);
    s.extend_from_slice(&[0x88, 0xac]);
    s
}

fn own_address() -> Address {
    Address { kind: AddressKind::P2pkh, script_pubkey: p2pkh_script(0xaa) }
}

fn dst_address() -> Address {
    Address { kind: AddressKind::P2pkh, script_pubkey: p2pkh_script(0xbb) }
}

fn pubkey() -> Vec<u8> {
    let mut k = vec![0x02];
    k.extend_from_slice(&[0x42; 32]);
    k
}

fn sum_outputs(outs: &[TxOut]) -> u128 {
    outs.iter().map(|o| o.value as u128).sum()
}

#[test]
fn selection_takes_newest_first() {
    let utxos = vec![utxo(1, 100), utxo(2, 200), utxo(3, 50)];
    let sel = select_utxos(&utxos, 250, 0).unwrap();
    assert_eq!(sel, vec![utxo(3, 50), utxo(2, 200)]);
    let sel = select_utxos(&utxos, 200, 50).unwrap();
    assert_eq!(sel, vec![utxo(3, 50), utxo(2, 200)]);
}

#[test]
fn selection_stops_at_first_cover() {
    let utxos = vec![utxo(1, 100), utxo(2, 200), utxo(3, 50)];
    assert_eq!(select_utxos(&utxos, 50, 0).unwrap(), vec![utxo(3, 50)]);
    assert_eq!(select_utxos(&utxos, 51, 0).unwrap(), vec![utxo(3, 50), utxo(2, 200)]);
    assert_eq!(
        select_utxos(&utxos, 300, 50).unwrap(),
        vec![utxo(3, 50), utxo(2, 200), utxo(1, 100)]
    );
}

#[test]
fn insufficient_funds_is_reported() {
    let utxos = vec![utxo(1, 100), utxo(2, 200)];
    let expected = WalletError::InsufficientFunds { available: 300, required: 400 };
    assert_eq!(select_utxos(&utxos, 400, 0), Err(expected));
    assert_eq!(
        build_transaction_with_fee(&utxos, &own_address(), &dst_address(), 400, 0).unwrap_err(),
        expected
    );
    assert_eq!(
        build_transaction_with_fee(&utxos, &own_address(), &dst_address(), 300, 1).unwrap_err(),
        WalletError::InsufficientFunds { available: 300, required: 301 }
    );
}

#[test]
fn empty_utxo_list_is_insufficient() {
    assert_eq!(
        select_utxos(&vec![], 1, 0),
        Err(WalletError::InsufficientFunds { available: 0, required: 1 })
    );
}

#[test]
fn large_values_do_not_overflow() {
    let utxos = vec![utxo(1, u64::MAX), utxo(2, u64::MAX)];
    let (tx, prevouts) =
        build_transaction_with_fee(&utxos, &own_address(), &dst_address(), u64::MAX, u64::MAX)
            .unwrap();
    assert_eq!(prevouts.len(), 2);
    assert_eq!(tx.output.len(), 1);
    assert_eq!(
        select_utxos(&vec![utxo(1, u64::MAX)], u64::MAX, 1),
        Err(WalletError::InsufficientFunds {
            available: u64::MAX as u128,
            required: u64::MAX as u128 + 1
        })
    );
}

#[test]
fn assembled_transaction_layout() {
    let utxos = vec![utxo(1, 100_000), utxo(2, 20_000)];
    let (tx, prevouts) =
        build_transaction_with_fee(&utxos, &own_address(), &dst_address(), 15_000, 1_000).unwrap();
    assert_eq!(tx.version, 2);
    assert_eq!(tx.lock_time, 0);
    assert_eq!(tx.input.len(), 1);
    assert_eq!(tx.input[0].previous_output, utxo(2, 0).outpoint);
    assert_eq!(tx.input[0].sequence, 0xffff_ffff);
    assert!(tx.input[0].script_sig.is_empty());
    assert_eq!(prevouts, vec![TxOut { value: 20_000, script_pubkey: p2pkh_script(0xaa) }]);
    assert_eq!(
        tx.output,
        vec![
            TxOut { value: 15_000, script_pubkey: p2pkh_script(0xbb) },
            TxOut { value: 4_000, script_pubkey: p2pkh_script(0xaa) },
        ]
    );
}

#[test]
fn value_is_conserved() {
    let utxos = vec![utxo(1, 70_000), utxo(2, 20_000), utxo(3, 5_000)];
    for (amount, fee) in [(10_000u64, 500u64), (24_000, 500), (24_400, 500), (90_000, 4_000)] {
        let (tx, prevouts) =
            build_transaction_with_fee(&utxos, &own_address(), &dst_address(), amount, fee)
                .unwrap();
        let spent = sum_outputs(&prevouts);
        let created = sum_outputs(&tx.output);
        let change = spent - amount as u128 - fee as u128;
        if change >= 1000 {
            assert_eq!(spent, created + fee as u128);
        } else {
            assert_eq!(spent, created + fee as u128 + change);
        }
        let sigs = vec![vec![0x30; 70]; tx.input.len()];
        let signed = attach_signatures(&tx, &own_address(), &pubkey(), &sigs).unwrap();
        assert_eq!(signed.output, tx.output);
    }
}

#[test]
fn dust_change_is_left_to_the_fee() {
    let utxos = vec![utxo(1, 10_000)];
    let (tx, _) =
        build_transaction_with_fee(&utxos, &own_address(), &dst_address(), 8_500, 501).unwrap();
    assert_eq!(tx.output.len(), 1);
    let (tx, _) =
        build_transaction_with_fee(&utxos, &own_address(), &dst_address(), 8_500, 500).unwrap();
    assert_eq!(tx.output.len(), 2);
    assert_eq!(tx.output[1], TxOut { value: 1_000, script_pubkey: p2pkh_script(0xaa) });
    let (tx, _) =
        build_transaction_with_fee(&utxos, &own_address(), &dst_address(), 9_000, 1_000).unwrap();
    assert_eq!(tx.output.len(), 1);
}

#[test]
fn fee_converges_to_fixed_point() {
    let utxos = vec![utxo(1, 50_000), utxo(2, 3_000), utxo(3, 2_000)];
    let probe = der_probe();
    let (tx, fee) =
        converge_fee(&pubkey(), &own_address(), &utxos, &dst_address(), 4_000, 2_000, &probe)
            .unwrap();
    let (rebuilt, _) =
        build_transaction_with_fee(&utxos, &own_address(), &dst_address(), 4_000, fee).unwrap();
    assert_eq!(rebuilt, tx);
    let sigs = vec![probe.clone(); tx.input.len()];
    let signed = attach_signatures(&tx, &own_address(), &pubkey(), &sigs).unwrap();
    let vsize = serialize_transaction(&signed).len() as u64;
    assert_eq!(vsize * 2_000 / 1000, fee);
    assert!(fee > 0);
}

#[test]
fn fee_search_is_deterministic() {
    let utxos = vec![utxo(1, 50_000), utxo(2, 3_000), utxo(3, 2_000), utxo(4, 700)];
    let a = build_transaction(&pubkey(), &own_address(), &utxos, &dst_address(), 5_000, 3_000)
        .unwrap();
    let b = build_transaction(&pubkey(), &own_address(), &utxos, &dst_address(), 5_000, 3_000)
        .unwrap();
    assert_eq!(a, b);
    let c = converge_fee(&pubkey(), &own_address(), &utxos, &dst_address(), 5_000, 3_000, &der_probe())
        .unwrap();
    let d = converge_fee(&pubkey(), &own_address(), &utxos, &dst_address(), 5_000, 3_000, &der_probe())
        .unwrap();
    assert_eq!(c, d);
    assert_eq!(a, c.0);
}

#[test]
fn zero_fee_rate_gives_zero_fee() {
    let utxos = vec![utxo(1, 50_000)];
    let (tx, fee) =
        converge_fee(&pubkey(), &own_address(), &utxos, &dst_address(), 4_000, 0, &der_probe())
            .unwrap();
    assert_eq!(fee, 0);
    assert_eq!(tx.output[1].value, 46_000);
}

#[test]
fn fee_search_reports_insufficient_funds() {
    let utxos = vec![utxo(1, 1_000)];
    let r = build_transaction(&pubkey(), &own_address(), &utxos, &dst_address(), 900, 2_000);
    assert!(matches!(r, Err(WalletError::InsufficientFunds { available: 1_000, .. })));
}

#[test]
fn fee_search_gives_up_on_unrepresentable_fee() {
    let utxos: Vec<Utxo> = (1..=8).map(|k| utxo(k, 1_000)).collect();
    let r = build_transaction(&pubkey(), &own_address(), &utxos, &dst_address(), 7_500, u64::MAX);
    assert_eq!(r, Err(WalletError::FeeConvergenceFailed));
    let r = build_transaction(&pubkey(), &own_address(), &utxos[..1].to_vec(), &dst_address(), 500, u64::MAX);
    assert!(matches!(r, Err(WalletError::InsufficientFunds { available: 1_000, .. })));
}

#[test]
fn unsupported_source_kind_is_refused() {
    let utxos = vec![utxo(1, 50_000)];
    let own = Address { kind: AddressKind::P2wpkh, script_pubkey: vec![0x00, 0x14] };
    let r = build_transaction(&pubkey(), &own, &utxos, &dst_address(), 4_000, 2_000);
    assert_eq!(r, Err(WalletError::UnsupportedAddressKind));
}

#[test]
fn oversized_public_key_is_refused() {
    let utxos = vec![utxo(1, 50_000)];
    let r = build_transaction(&vec![4u8; 76], &own_address(), &utxos, &dst_address(), 4_000, 2_000);
    assert_eq!(r, Err(WalletError::PushTooLarge));
    let (tx, _) =
        build_transaction_with_fee(&utxos, &own_address(), &dst_address(), 4_000, 0).unwrap();
    let r = attach_signatures(&tx, &own_address(), &pubkey(), &vec![vec![0x30; 75]]);
    assert_eq!(r, Err(WalletError::PushTooLarge));
}

#[test]
fn fee_rate_from_percentiles() {
    assert_eq!(fee_per_byte_from_percentiles(&vec![]), 2000);
    let p: Vec<u64> = (0..101).map(|i| 1000 + i * 10).collect();
    assert_eq!(fee_per_byte_from_percentiles(&p), 1500);
}

fn der_probe() -> Vec<u8> {
    let mut d = vec![0x30, 0x44, 0x02, 0x20];
    d.extend_from_slice(&[1u8; 32]);
    d.extend_from_slice(&[0x02, 0x20]);
    d.extend_from_slice(&[1u8; 32]);
    d
}

#[test]
fn unsigned_transaction_round_trip_shape() {
    let utxos = vec![utxo(1, 50_000)];
    let tx: Transaction =
        build_transaction(&pubkey(), &own_address(), &utxos, &dst_address(), 4_000, 2_000).unwrap();
    assert_eq!(tx.input.len(), 1);
    assert_eq!(tx.output.len(), 2);
    assert_eq!(tx.output[0].value, 4_000);
}

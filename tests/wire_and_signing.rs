use alloy_wallet::address::p2pkh_address;
use alloy_wallet::config::Mode;
use alloy_wallet::decoding::deserialize_transaction;
use alloy_wallet::derivation::DerivationPath;
use alloy_wallet::encoding::serialize_transaction;
use alloy_wallet::error::WalletError;
use alloy_wallet::evm_rpc::{rpc_services, EthSepoliaService, RpcServices};
use alloy_wallet::fee::build_transaction;
use alloy_wallet::signing::{
    compute_txid, legacy_sighashes, legacy_signature_hash, sighash_preimage_bytes, sign_transaction,
};
use alloy_wallet::sol_rpc::{rpc_sources, RpcSources, SolanaCluster};
use alloy_wallet::transaction::{
    Address, AddressKind, OutPoint, Transaction, TxIn, TxOut, Utxo,
};
use bitcoin::hashes::Hash as _;
use bitcoin::script::{Builder, PushBytesBuf};
use bitcoin::secp256k1::{Message, Secp256k1, SecretKey};
use bitcoin::sighash::{EcdsaSighashType, SighashCache};

fn to_reference(tx: &Transaction) -> bitcoin::Transaction {
    bitcoin::Transaction {
        version: bitcoin::transaction::Version(tx.version as i32),
        lock_time: bitcoin::absolute::LockTime::from_consensus(tx.lock_time),
        input: tx
            .input
            .iter()
            .map(|i| bitcoin::TxIn {
                previous_output: bitcoin::OutPoint {
                    txid: bitcoin::Txid::from_byte_array(i.previous_output.txid),
                    vout: i.previous_output.vout,
                },
                script_sig: bitcoin::ScriptBuf::from_bytes(i.script_sig.clone()),
                sequence: bitcoin::Sequence(i.sequence),
                witness: bitcoin::Witness::new(),
            })
            .collect(),
        output: tx
            .output
            .iter()
            .map(|o| bitcoin::TxOut {
                value: bitcoin::Amount::from_sat(o.value),
                script_pubkey: bitcoin::ScriptBuf::from_bytes(o.script_pubkey.clone()),
            })
            .collect(),
    }
}

struct Wallet {
    secret: SecretKey,
    public: bitcoin::PublicKey,
    address: Address,
}

fn test_wallet() -> Wallet {
    let secp = Secp256k1::new();
    let secret = SecretKey::from_slice(&[0x11; 32]).unwrap();
    let public = bitcoin::PublicKey::new(secret.public_key(&secp));
    let script = bitcoin::Address::p2pkh(public, bitcoin::Network::Regtest).script_pubkey();
    Wallet { secret, public, address: Address { kind: AddressKind::P2pkh, script_pubkey: script.to_bytes() } }
}

fn destination() -> Address {
    let mut s = vec![0x76, 0xa9, 0x14];
    s.extend_from_slice(&[0x5c; 20]);
    s.extend_from_slice(&[0x88, 0xac]);
    Address { kind: AddressKind::P2pkh, script_pubkey: s }
}

fn utxos() -> Vec<Utxo> {
    vec![
        Utxo { outpoint: OutPoint { txid: [0x21; 32], vout: 0 }, value: 30_000 },
        Utxo { outpoint: OutPoint { txid: [0x37; 32], vout: 3 }, value: 12_000 },
    ]
}

fn sample_transaction() -> Transaction {
    Transaction {
        version: 2,
        lock_time: 0x0102_0304,
        input: vec![
            TxIn {
                previous_output: OutPoint { txid: [7; 32], vout: 1 },
                script_sig: vec![0x51; 300],
                sequence: 0xffff_fffe,
            },
            TxIn {
                previous_output: OutPoint { txid: [9; 32], vout: 0x1_0000 },
                script_sig: vec![],
                sequence: 0,
            },
        ],
        output: vec![
            TxOut { value: 0x0102_0304_0506_0708, script_pubkey: vec![0x6a; 252] },
            TxOut { value: 0, script_pubkey: vec![0x00; 253] },
        ],
    }
}

#[test]
fn serialization_matches_reference() {
    let tx = sample_transaction();
    let bytes = serialize_transaction(&tx);
    assert_eq!(bytes, bitcoin::consensus::serialize(&to_reference(&tx)));
    assert_eq!(&bytes[..4], &[2, 0, 0, 0]);
    assert_eq!(bytes[4], 2);
    assert_eq!(&bytes[4 + 1 + 32 + 4..4 + 1 + 32 + 4 + 3], &[0xfd, 0x2c, 0x01]);
    assert_eq!(&bytes[bytes.len() - 4..], &[4, 3, 2, 1]);
}

#[test]
fn reserialization_is_identical() {
    let tx = sample_transaction();
    let bytes = serialize_transaction(&tx);
    let back = deserialize_transaction(&bytes).unwrap();
    assert_eq!(back, tx);
    assert_eq!(serialize_transaction(&back), bytes);
    let reference: bitcoin::Transaction = bitcoin::consensus::deserialize(&bytes).unwrap();
    assert_eq!(bitcoin::consensus::serialize(&reference), bytes);
}

#[test]
fn malformed_bytes_are_refused() {
    let bytes = serialize_transaction(&sample_transaction());
    assert_eq!(deserialize_transaction(&bytes[..bytes.len() - 1].to_vec()), None);
    let mut longer = bytes.clone();
    longer.push(0);
    assert_eq!(deserialize_transaction(&longer), None);
    assert_eq!(deserialize_transaction(&vec![]), None);
    assert_eq!(deserialize_transaction(&vec![2, 0, 0, 0, 0, 1, 0, 0, 0, 0]), None);
    let mut wide = bytes[..4].to_vec();
    wide.extend_from_slice(&[0xfd, 0x02, 0x00]);
    wide.extend_from_slice(&bytes[5..]);
    assert_eq!(deserialize_transaction(&wide), None);
}

#[test]
fn sighash_preimage_matches_reference() {
    let tx = sample_transaction();
    let script = vec![0x76, 0xa9, 0x14, 0x01, 0x02];
    let reference = to_reference(&tx);
    let cache = SighashCache::new(&reference);
    for k in 0..tx.input.len() {
        let mut expected = Vec::new();
        let single_bug = cache
            .legacy_encode_signing_data_to(
                &mut expected,
                k,
                &bitcoin::ScriptBuf::from_bytes(script.clone()),
                EcdsaSighashType::All.to_u32(),
            )
            .is_sighash_single_bug()
            .unwrap();
        assert!(!single_bug);
        assert_eq!(sighash_preimage_bytes(&tx, k, &script), expected);
    }
}

#[test]
fn sighashes_match_reference() {
    let w = test_wallet();
    let tx = build_transaction(&w.public.to_bytes(), &w.address, &utxos(), &destination(), 35_000, 2_000)
        .unwrap();
    assert_eq!(tx.input.len(), 2);
    let hashes = legacy_sighashes(&tx, &w.address).unwrap();
    let reference = to_reference(&tx);
    let cache = SighashCache::new(&reference);
    let script = bitcoin::ScriptBuf::from_bytes(w.address.script_pubkey.clone());
    for (k, h) in hashes.iter().enumerate() {
        let expected = cache
            .legacy_signature_hash(k, &script, EcdsaSighashType::All.to_u32())
            .unwrap();
        assert_eq!(*h, expected.to_byte_array());
        assert_eq!(legacy_signature_hash(&tx, k, &w.address.script_pubkey), *h);
    }
    assert_ne!(hashes[0], hashes[1]);
}

#[test]
fn signed_transaction_matches_reference() {
    let w = test_wallet();
    let secp = Secp256k1::new();
    let tx = build_transaction(&w.public.to_bytes(), &w.address, &utxos(), &destination(), 35_000, 2_000)
        .unwrap();
    let hashes = legacy_sighashes(&tx, &w.address).unwrap();
    let compact: Vec<[u8; 64]> = hashes
        .iter()
        .map(|h| secp.sign_ecdsa(&Message::from_digest(*h), &w.secret).serialize_compact())
        .collect();
    let signed = sign_transaction(&tx, &w.address, &w.public.to_bytes(), &compact).unwrap();

    let mut reference = to_reference(&tx);
    let unsigned = reference.clone();
    let cache = SighashCache::new(&unsigned);
    let script = bitcoin::ScriptBuf::from_bytes(w.address.script_pubkey.clone());
    for (k, input) in reference.input.iter_mut().enumerate() {
        let sighash = cache.legacy_signature_hash(k, &script, EcdsaSighashType::All.to_u32()).unwrap();
        let sig = secp.sign_ecdsa(&Message::from_digest(sighash.to_byte_array()), &w.secret);
        let mut sig = sig.serialize_der().to_vec();
        sig.push(EcdsaSighashType::All.to_u32() as u8);
        input.script_sig = Builder::new()
            .push_slice(PushBytesBuf::try_from(sig).unwrap())
            .push_slice(PushBytesBuf::try_from(w.public.to_bytes()).unwrap())
            .into_script();
    }
    for k in 0..signed.input.len() {
        assert_eq!(signed.input[k].script_sig, reference.input[k].script_sig.to_bytes());
    }
    let bytes = serialize_transaction(&signed);
    assert_eq!(bytes, bitcoin::consensus::serialize(&reference));
    assert_eq!(compute_txid(&signed), reference.compute_txid().to_byte_array());
    assert_ne!(compute_txid(&signed), compute_txid(&tx));
    let back = deserialize_transaction(&bytes).unwrap();
    assert_eq!(serialize_transaction(&back), bytes);
}

#[test]
fn signed_size_matches_fee() {
    let w = test_wallet();
    let tx = build_transaction(&w.public.to_bytes(), &w.address, &utxos(), &destination(), 35_000, 2_000)
        .unwrap();
    let reference = to_reference(&tx);
    let spent: u64 = utxos().iter().map(|u| u.value).sum();
    let paid: u64 = tx.output.iter().map(|o| o.value).sum();
    let fee = spent - paid;
    let compact = vec![[1u8; 64]; tx.input.len()];
    let probe_signed = sign_transaction(&tx, &w.address, &w.public.to_bytes(), &compact).unwrap();
    let vsize = serialize_transaction(&probe_signed).len() as u64;
    assert_eq!(to_reference(&probe_signed).vsize() as u64, vsize);
    assert!(fee >= vsize * 2_000 / 1000);
    assert_eq!(reference.input.len(), 2);
}

#[test]
fn probe_signature_der_encoding() {
    let w = test_wallet();
    let tx = Transaction {
        version: 2,
        lock_time: 0,
        input: vec![TxIn { previous_output: OutPoint { txid: [1; 32], vout: 0 }, script_sig: vec![], sequence: 0xffff_ffff }],
        output: vec![],
    };
    let signed = sign_transaction(&tx, &w.address, &w.public.to_bytes(), &vec![[1u8; 64]]).unwrap();
    let s = &signed.input[0].script_sig;
    assert_eq!(s[0], 71);
    assert_eq!(&s[1..5], &[0x30, 0x44, 0x02, 0x20]);
    assert_eq!(s[71], 1);
    assert_eq!(s[72], 33);
    assert_eq!(&s[73..], &w.public.to_bytes()[..]);
}

#[test]
fn invalid_compact_signature_is_refused() {
    let w = test_wallet();
    let tx = build_transaction(&w.public.to_bytes(), &w.address, &utxos(), &destination(), 5_000, 2_000)
        .unwrap();
    let compact = vec![[0xffu8; 64]; tx.input.len()];
    let r = sign_transaction(&tx, &w.address, &w.public.to_bytes(), &compact);
    assert_eq!(r, Err(WalletError::InvalidSignature));
    let other = Address { kind: AddressKind::P2sh, script_pubkey: vec![0xa9] };
    assert_eq!(legacy_sighashes(&tx, &other), Err(WalletError::UnsupportedAddressKind));
}

#[test]
fn own_address_matches_reference() {
    let w = test_wallet();
    let own = p2pkh_address(&w.public.to_bytes());
    assert_eq!(own, w.address);
    assert_eq!(own.script_pubkey.len(), 25);
    assert_eq!(&own.script_pubkey[..3], &[0x76, 0xa9, 0x14]);
    assert_ne!(&own.script_pubkey[3..23], &w.public.to_bytes()[..20]);
    let other = p2pkh_address(&vec![0x03; 33]);
    assert_ne!(other.script_pubkey, own.script_pubkey);
}

#[test]
fn derivation_path_bytes() {
    let path = DerivationPath::p2pkh(0, 0).to_vec_u8_path();
    assert_eq!(
        path,
        vec![
            vec![0x80, 0, 0, 44],
            vec![0x80, 0, 0, 0],
            vec![0x80, 0, 0, 0],
            vec![0, 0, 0, 0],
            vec![0, 0, 0, 0],
        ]
    );
    let path = DerivationPath::p2pkh(5, 0x0102_0304).to_vec_u8_path();
    assert_eq!(path[2], vec![0x80, 0, 0, 5]);
    assert_eq!(path[4], vec![1, 2, 3, 4]);
}

#[test]
fn rpc_endpoints_by_mode() {
    assert!(matches!(rpc_sources(Mode::Test), RpcSources::Default(SolanaCluster::Devnet)));
    assert!(matches!(rpc_sources(Mode::Production), RpcSources::Default(SolanaCluster::Mainnet)));
    assert_eq!(rpc_services(), RpcServices::EthSepolia(Some(vec![EthSepoliaService::PublicNode])));
}

use bip39::{Language, Mnemonic};
use offline_wallet::chains::bitcoin::{
    derive_btc_address, stand_in_transaction, sign_btc_transaction, BtcTransaction,
};
use offline_wallet::chains::bnb::{derive_bnb_address, sign_bnb_transaction, BnbTransaction};
use offline_wallet::chains::ethereum::{
    derive_eth_address, prefixed_hex, sign_eth_transaction, strip_0x, EthTransaction,
};
use offline_wallet::chains::solana::{derive_sol_address, sign_sol_transaction, SolTransaction};
use offline_wallet::chains::tron::{
    derive_tron_address, derive_tron_address_from_pubkey, sign_tron_transaction, TronTransaction,
};
use offline_wallet::chains::address_validation::{
    validate_btc_address, validate_eth_address, validate_sol_address,
};
use offline_wallet::keys::{derivation_path, derive_secret};
use ed25519_dalek::Signer;
use ethers_core::types::{TransactionRequest, H160, U256};
use ethers_signers::LocalWallet;
use sha2::Digest;
use std::str::FromStr;
use tiny_hderive::bip32::ExtendedPrivKey;

const PHRASE: &str =
    "abandon abandon abandon abandon abandon abandon abandon abandon abandon abandon abandon about";

fn secret_at(path: &str, passphrase: &str) -> [u8; 32] {
    let m = Mnemonic::parse_in_normalized(Language::English, PHRASE).unwrap();
    let seed = m.to_seed(passphrase);
    ExtendedPrivKey::derive(&seed, path).unwrap().secret()
}

fn eth_tx() -> EthTransaction {
    EthTransaction {
        to: "0x742d35Cc6634C0532925a3b844Bc454e4438f44e".to_string(),
        value: "1000000000000000000".to_string(),
        gas_price: "20000000000".to_string(),
        gas_limit: "21000".to_string(),
        nonce: "0".to_string(),
        data: None,
    }
}

#[test]
fn test_derive_eth_address() {
    let mnemonic = "abandon abandon abandon abandon abandon abandon abandon abandon abandon abandon abandon about";
    let result = derive_eth_address(mnemonic, None, 0).unwrap();
    assert!(result.address.starts_with("0x"));
    assert_eq!(result.derivation_path, "m/44'/60'/0'/0/0");
}

#[test]
fn eth_address_of_the_standard_phrase() {
    let a = derive_eth_address(PHRASE, None, 0).unwrap();
    assert_eq!(a.address, "0x9858effd232b4033e47d90003d41ec34ecaeda94");
    assert_eq!(a.address.len(), 42);
    assert!(validate_eth_address(&a.address));
    let b = derive_eth_address(PHRASE, Some(""), 0).unwrap();
    assert_eq!(a.address, b.address);
    let c = derive_eth_address(PHRASE, Some("TREZOR"), 0).unwrap();
    assert_ne!(a.address, c.address);
}

#[test]
fn derivation_paths_and_secrets() {
    assert_eq!(derivation_path("m/44'/60'/0'/0", 0), "m/44'/60'/0'/0/0");
    assert_eq!(derivation_path("m/44'/501'/0'/0'", 4294967295), "m/44'/501'/0'/0'/4294967295");
    assert_eq!(
        derive_secret(PHRASE, None, "m/44'/60'/0'/0/7"),
        Ok(secret_at("m/44'/60'/0'/0/7", ""))
    );
    assert_eq!(
        derive_secret(PHRASE, Some("pass"), "m/84'/0'/0'/0/1"),
        Ok(secret_at("m/84'/0'/0'/0/1", "pass"))
    );
    assert_eq!(
        derive_secret("nope", None, "m/0"),
        Err("Invalid mnemonic: BadWordCount(1)".to_string())
    );
    assert_eq!(
        derive_secret(PHRASE, None, "44'/60'"),
        Err("Failed to derive key: InvalidDerivationPath".to_string())
    );
    assert_eq!(
        derive_secret(PHRASE, None, "m/44'/x"),
        Err("Failed to derive key: InvalidChildNumber".to_string())
    );
}

#[test]
fn an_index_beyond_31_bits_cannot_be_derived() {
    assert_eq!(
        derive_eth_address(PHRASE, None, 2147483648).err(),
        Some("Failed to derive key: InvalidChildNumber".to_string())
    );
    assert!(derive_eth_address(PHRASE, None, 2147483647).is_ok());
}

#[test]
fn addresses_are_deterministic_and_differ_by_index() {
    for i in [0u32, 1, 2, 50] {
        assert_eq!(
            derive_eth_address(PHRASE, None, i).unwrap().address,
            derive_eth_address(PHRASE, None, i).unwrap().address
        );
        assert_ne!(
            derive_eth_address(PHRASE, None, i).unwrap().address,
            derive_eth_address(PHRASE, None, i + 1).unwrap().address
        );
        assert_ne!(
            derive_btc_address(PHRASE, None, i, "native_segwit").unwrap().address,
            derive_btc_address(PHRASE, None, i + 1, "native_segwit").unwrap().address
        );
        assert_ne!(
            derive_sol_address(PHRASE, None, i).unwrap().address,
            derive_sol_address(PHRASE, None, i + 1).unwrap().address
        );
        assert_ne!(
            derive_tron_address(PHRASE, None, i).unwrap().address,
            derive_tron_address(PHRASE, None, i + 1).unwrap().address
        );
    }
}

#[test]
fn bnb_shares_the_eth_address() {
    let e = derive_eth_address(PHRASE, None, 3).unwrap();
    let b = derive_bnb_address(PHRASE, None, 3).unwrap();
    assert_eq!(e.address, b.address);
    assert_eq!(b.derivation_path, "m/44'/60'/0'/0/3");
    assert!(derive_bnb_address("nope", None, 3).is_err());
}

#[test]
fn btc_addresses_of_the_standard_phrase() {
    let a = derive_btc_address(PHRASE, None, 0, "native_segwit").unwrap();
    assert_eq!(a.address, "bc1qcr8te4kr609gcawutmrza0j4xv80jy8z306fyu");
    assert_eq!(a.derivation_path, "m/84'/0'/0'/0/0");
    assert_eq!(a.address_type, "native_segwit");
    let a = derive_btc_address(PHRASE, None, 0, "legacy").unwrap();
    assert_eq!(a.address, "1LqBGSKuX5yYUonjxT5qGfpUsXKYYWeabA");
    assert_eq!(a.derivation_path, "m/44'/0'/0'/0/0");
    let a = derive_btc_address(PHRASE, None, 0, "segwit").unwrap();
    assert_eq!(a.address, "37VucYSaXLCAsxYyAPfbSi9eh4iEcbShgf");
    assert_eq!(a.derivation_path, "m/49'/0'/0'/0/0");
    assert!(validate_btc_address(&a.address));
}

#[test]
fn btc_address_type_must_be_known() {
    assert_eq!(
        derive_btc_address(PHRASE, None, 0, "taproot").err(),
        Some("Invalid address type".to_string())
    );
    assert_eq!(
        derive_btc_address("nope", None, 0, "Legacy").err(),
        Some("Invalid address type".to_string())
    );
    assert_eq!(
        derive_btc_address("nope", None, 0, "legacy").err(),
        Some("Invalid mnemonic: BadWordCount(1)".to_string())
    );
}

#[test]
fn sol_address_is_the_public_key_in_base58() {
    let a = derive_sol_address(PHRASE, None, 2).unwrap();
    assert_eq!(a.derivation_path, "m/44'/501'/0'/0'/2");
    let secret = secret_at("m/44'/501'/0'/0'/2", "");
    let key = ed25519_dalek::SigningKey::from_bytes(&secret);
    let expected = bs58::encode(key.verifying_key().to_bytes()).into_string();
    assert_eq!(a.address, expected);
    assert!(validate_sol_address(&a.address));
}

#[test]
fn tron_address_from_a_public_key() {
    let pubkey = [7u8; 64];
    let hash = sha3::Keccak256::digest(pubkey);
    let expected = format!("T{}", bs58::encode(&hash[12..32]).into_string());
    assert_eq!(derive_tron_address_from_pubkey(&pubkey), expected);
    assert_ne!(derive_tron_address_from_pubkey(&pubkey), derive_tron_address_from_pubkey(&[8u8; 64]));
}

#[test]
fn tron_address_of_the_standard_phrase() {
    let a = derive_tron_address(PHRASE, None, 1).unwrap();
    assert_eq!(a.derivation_path, "m/44'/195'/0'/0/1");
    let secret = secret_at("m/44'/195'/0'/0/1", "");
    let sk = secp256k1::SecretKey::from_slice(&secret).unwrap();
    let pk = secp256k1::PublicKey::from_secret_key(&secp256k1::Secp256k1::new(), &sk);
    let bytes = pk.serialize_uncompressed();
    assert_eq!(a.address, derive_tron_address_from_pubkey(&bytes[1..]));
    assert!(a.address.starts_with('T'));
}

#[test]
fn hex_helpers() {
    assert_eq!(prefixed_hex(&[]), "0x");
    assert_eq!(prefixed_hex(&[0x00, 0x0f, 0xa0, 0xff]), "0x000fa0ff");
    assert_eq!(strip_0x("0x1234"), "1234");
    assert_eq!(strip_0x("0x0x12"), "12");
    assert_eq!(strip_0x("1234"), "1234");
    assert_eq!(strip_0x("0X12"), "0X12");
    assert_eq!(strip_0x("0x"), "");
    assert_eq!(strip_0x(""), "");
    assert_eq!(strip_0x("00x1"), "00x1");
}

#[test]
fn eth_signing_matches_the_signer_crates() {
    let mut tx = eth_tx();
    tx.data = Some("0xdeadbeef".to_string());
    let signed = sign_eth_transaction(PHRASE, None, 0, tx).unwrap();

    let wallet = LocalWallet::from_bytes(&secret_at("m/44'/60'/0'/0/0", "")).unwrap();
    let request = TransactionRequest::new()
        .to(H160::from_str("0x742d35Cc6634C0532925a3b844Bc454e4438f44e").unwrap())
        .value(U256::from_dec_str("1000000000000000000").unwrap())
        .gas_price(U256::from_dec_str("20000000000").unwrap())
        .gas(U256::from_dec_str("21000").unwrap())
        .nonce(U256::from_dec_str("0").unwrap())
        .data(vec![0xde, 0xad, 0xbe, 0xef]);
    let signature = wallet.sign_transaction_sync(&request.clone().into()).unwrap();
    let rlp = request.rlp_signed(&signature);
    assert_eq!(signed.raw_transaction, format!("0x{}", hex::encode(&rlp)));
    assert_eq!(
        signed.transaction_hash,
        format!("0x{}", hex::encode(ethers_core::utils::keccak256(&rlp)))
    );
    assert_eq!(signed.transaction_hash.len(), 66);
}

#[test]
fn eth_signing_is_deterministic_and_depends_on_the_fields() {
    let a = sign_eth_transaction(PHRASE, None, 0, eth_tx()).unwrap();
    let b = sign_eth_transaction(PHRASE, None, 0, eth_tx()).unwrap();
    assert_eq!(a.raw_transaction, b.raw_transaction);
    assert_eq!(a.transaction_hash, b.transaction_hash);
    let c = sign_eth_transaction(PHRASE, None, 1, eth_tx()).unwrap();
    assert_ne!(a.raw_transaction, c.raw_transaction);
    let mut tx = eth_tx();
    tx.nonce = "1".to_string();
    let d = sign_eth_transaction(PHRASE, None, 0, tx).unwrap();
    assert_ne!(a.raw_transaction, d.raw_transaction);
    let mut tx = eth_tx();
    tx.data = Some("".to_string());
    let e = sign_eth_transaction(PHRASE, None, 0, tx).unwrap();
    assert_eq!(a.raw_transaction, e.raw_transaction);
}

#[test]
fn eth_signing_errors_name_the_field() {
    let fails = |change: fn(&mut EthTransaction)| {
        let mut tx = eth_tx();
        change(&mut tx);
        sign_eth_transaction(PHRASE, None, 0, tx).err().unwrap()
    };
    assert!(fails(|t| t.to = "0x12".to_string()).starts_with("Invalid to address: "));
    assert_eq!(
        fails(|t| t.value = "1.5".to_string()),
        "Invalid value: a character is not in the range 0-9"
    );
    assert_eq!(
        fails(|t| t.gas_price = "-1".to_string()),
        "Invalid gas price: a character is not in the range 0-9"
    );
    assert_eq!(
        fails(|t| t.gas_limit = "1".repeat(80)),
        "Invalid gas limit: the number is too large for the type"
    );
    assert_eq!(
        fails(|t| t.nonce = "0x1".to_string()),
        "Invalid nonce: a character is not in the range 0-9"
    );
    assert_eq!(
        fails(|t| t.data = Some("0xabc".to_string())),
        "Invalid data hex: Odd number of digits"
    );
    assert_eq!(
        fails(|t| t.data = Some("0xzz".to_string())),
        "Invalid data hex: Invalid character 'z' at position 0"
    );
    assert_eq!(
        fails(|t| t.data = Some("0x12é".to_string())),
        "Invalid data hex: Invalid character 'Ã' at position 2"
    );
    assert_eq!(
        fails(|t| t.data = Some("0x1é".to_string())),
        "Invalid data hex: Odd number of digits"
    );
    assert_eq!(
        sign_eth_transaction("nope", None, 0, eth_tx()).err().unwrap(),
        "Invalid mnemonic: BadWordCount(1)"
    );
}

#[test]
fn the_largest_256_bit_number_is_a_value() {
    let mut tx = eth_tx();
    tx.value =
        "115792089237316195423570985008687907853269984665640564039457584007913129639935".to_string();
    assert!(sign_eth_transaction(PHRASE, None, 0, tx).is_ok());
    let mut tx = eth_tx();
    tx.value =
        "115792089237316195423570985008687907853269984665640564039457584007913129639936".to_string();
    assert_eq!(
        sign_eth_transaction(PHRASE, None, 0, tx).err().unwrap(),
        "Invalid value: the number is too large for the type"
    );
    let mut tx = eth_tx();
    tx.value = "".to_string();
    assert!(sign_eth_transaction(PHRASE, None, 0, tx).is_ok());
}

#[test]
fn bnb_signing_is_eth_signing() {
    let e = sign_eth_transaction(PHRASE, None, 2, eth_tx()).unwrap();
    let t = eth_tx();
    let b = sign_bnb_transaction(
        PHRASE,
        None,
        2,
        BnbTransaction {
            to: t.to,
            value: t.value,
            gas_price: t.gas_price,
            gas_limit: t.gas_limit,
            nonce: t.nonce,
            data: t.data,
        },
    )
    .unwrap();
    assert_eq!(e.raw_transaction, b.raw_transaction);
    assert_eq!(e.transaction_hash, b.transaction_hash);
}

#[test]
fn btc_stand_in_is_built_from_the_satoshi_amount() {
    let tx = BtcTransaction {
        to: "bc1qw508d6qejxtdg4y5r3zarvary0c5xw7kv8f3t4".to_string(),
        amount: "1.5".to_string(),
        fee_rate: None,
    };
    let signed = sign_btc_transaction(PHRASE, None, 4, tx).unwrap();
    let hash = sha2::Sha256::digest(b"bc1qw508d6qejxtdg4y5r3zarvary0c5xw7kv8f3t4:150000000:4");
    assert_eq!(signed.transaction_hash, hex::encode(hash));
    assert_eq!(signed.raw_transaction, format!("cHNidP8AAAAA{}", hex::encode(hash)));
    let direct = stand_in_transaction("bc1qw508d6qejxtdg4y5r3zarvary0c5xw7kv8f3t4", 150000000, 4);
    assert_eq!(direct.transaction_hash, signed.transaction_hash);
    assert_eq!(direct.raw_transaction, signed.raw_transaction);
    assert_eq!(signed.transaction_hash.len(), 64);
    assert_eq!(signed.raw_transaction.len(), 76);
}

#[test]
fn btc_signing_errors_in_order() {
    let tx = |to: &str, amount: &str| BtcTransaction {
        to: to.to_string(),
        amount: amount.to_string(),
        fee_rate: Some("10".to_string()),
    };
    let good = "1A1zP1eP5QGefi2DMPTfTL5SLmv7DivfNa";
    assert!(sign_btc_transaction("nope", None, 0, tx("x", "y"))
        .err()
        .unwrap()
        .starts_with("Invalid Bitcoin address: "));
    assert_eq!(
        sign_btc_transaction("nope", None, 0, tx(good, "y")).err().unwrap(),
        "Invalid amount: invalid float literal"
    );
    assert_eq!(
        sign_btc_transaction("nope", None, 0, tx(good, "")).err().unwrap(),
        "Invalid amount: cannot parse float from empty string"
    );
    assert_eq!(
        sign_btc_transaction("nope", None, 0, tx(good, "1")).err().unwrap(),
        "Invalid mnemonic: BadWordCount(1)"
    );
    assert!(sign_btc_transaction(PHRASE, None, 0, tx(good, "1")).is_ok());
}

#[test]
fn sol_signing_matches_the_signer_crate() {
    let tx = SolTransaction {
        to: "So11111111111111111111111111111111111111112".to_string(),
        amount: "2.0".to_string(),
        recent_blockhash: None,
    };
    let signed = sign_sol_transaction(PHRASE, None, 1, tx).unwrap();
    let key = ed25519_dalek::SigningKey::from_bytes(&secret_at("m/44'/501'/0'/0'/1", ""));
    let message = b"So11111111111111111111111111111111111111112:2000000000:default";
    let signature = key.sign(message).to_bytes();
    assert_eq!(signed.signature, bs58::encode(signature).into_string());
    let mut both = signature.to_vec();
    both.extend_from_slice(message);
    assert_eq!(signed.raw_transaction, bs58::encode(both).into_string());

    let tx = SolTransaction {
        to: "So11111111111111111111111111111111111111112".to_string(),
        amount: "2.0".to_string(),
        recent_blockhash: Some("abc".to_string()),
    };
    let other = sign_sol_transaction(PHRASE, None, 1, tx).unwrap();
    let message = b"So11111111111111111111111111111111111111112:2000000000:abc";
    assert_eq!(other.signature, bs58::encode(key.sign(message).to_bytes()).into_string());
}

#[test]
fn sol_signing_errors() {
    let tx = SolTransaction {
        to: "x".to_string(),
        amount: "two".to_string(),
        recent_blockhash: None,
    };
    assert_eq!(
        sign_sol_transaction(PHRASE, None, 0, tx.clone()).err().unwrap(),
        "Invalid amount: invalid float literal"
    );
    assert_eq!(
        sign_sol_transaction("nope", None, 0, tx).err().unwrap(),
        "Invalid mnemonic: BadWordCount(1)"
    );
}

#[test]
fn tron_signing_matches_the_signer_crate() {
    let tx = TronTransaction {
        to: "TQn9Y2khEsLMWD7j5qZz5qZz5qZz5qZz5q".to_string(),
        value: "0001000000".to_string(),
        gas_price: None,
        gas_limit: Some("30000".to_string()),
    };
    let signed = sign_tron_transaction(PHRASE, None, 0, tx).unwrap();
    let hash = sha3::Keccak256::digest(b"TQn9Y2khEsLMWD7j5qZz5qZz5qZz5qZz5q:1000000:420:30000");
    assert_eq!(signed.transaction_hash, format!("0x{}", hex::encode(hash)));
    let sk = secp256k1::SecretKey::from_slice(&secret_at("m/44'/195'/0'/0/0", "")).unwrap();
    let message = secp256k1::Message::from_digest_slice(&hash).unwrap();
    let signature = secp256k1::Secp256k1::new().sign_ecdsa(&message, &sk).serialize_compact();
    assert_eq!(
        signed.raw_transaction,
        format!("0x{}{}", hex::encode(hash), hex::encode(signature))
    );
    assert_eq!(signed.raw_transaction.len(), 194);
    assert_eq!(signed.transaction_hash.len(), 66);
}

#[test]
fn mixed_case_call_data_decodes() {
    let mut lower = eth_tx();
    lower.data = Some("0xdeadbeef00ff".to_string());
    let mut upper = eth_tx();
    upper.data = Some("0xDEADbeEF00Ff".to_string());
    assert_eq!(
        sign_eth_transaction(PHRASE, None, 0, lower).unwrap().raw_transaction,
        sign_eth_transaction(PHRASE, None, 0, upper).unwrap().raw_transaction
    );
}

#[test]
fn tron_defaults_and_errors() {
    let tx = |value: &str, gas_price: Option<&str>, gas_limit: Option<&str>| TronTransaction {
        to: "T".to_string(),
        value: value.to_string(),
        gas_price: gas_price.map(|s| s.to_string()),
        gas_limit: gas_limit.map(|s| s.to_string()),
    };
    let a = sign_tron_transaction(PHRASE, None, 0, tx("5", None, None)).unwrap();
    let b = sign_tron_transaction(PHRASE, None, 0, tx("5", Some("420"), Some("21000"))).unwrap();
    assert_eq!(a.raw_transaction, b.raw_transaction);
    let hash = sha3::Keccak256::digest(b"T:5:420:21000");
    assert_eq!(a.transaction_hash, format!("0x{}", hex::encode(hash)));
    assert_eq!(
        sign_tron_transaction(PHRASE, None, 0, tx("five", None, None)).err().unwrap(),
        "Invalid value: a character is not in the range 0-9"
    );
    assert_eq!(
        sign_tron_transaction(PHRASE, None, 0, tx("5", Some("x"), Some("y"))).err().unwrap(),
        "Invalid gas price: a character is not in the range 0-9"
    );
    assert_eq!(
        sign_tron_transaction(PHRASE, None, 0, tx("5", None, Some("y"))).err().unwrap(),
        "Invalid gas limit: a character is not in the range 0-9"
    );
}

use bip39::{Language, Mnemonic};
use offline_wallet::chains::kaspa::{
    derive_kaspa_address, derive_kaspa_address_from_pubkey, derive_key_from_mnemonic,
    has_decodable_shape, sign_kaspa_transaction, Address, KaspaTransaction, Prefix, Version,
};
use sha2::Digest;
use tiny_hderive::bip32::ExtendedPrivKey;

const PHRASE: &str =
    "abandon abandon abandon abandon abandon abandon abandon abandon abandon abandon abandon about";

#[test]
fn test_address_from_pubkey_mainnet() {
    let address = Address::new(Prefix::Mainnet, Version::PubKey, &[0u8; 32]);
    let address_str: String = address.encode().unwrap();
    assert_eq!(address_str, "kaspa:qqqqqqqqqqqqqqqqqqqqqqqqqqqqqqqqqqqqqqqqqqqqqqqqqqqqqkx9awp4e");

    let pubkey = b"\x5f\xff\x3c\x4d\xa1\x8f\x45\xad\xcd\xd4\x99\xe4\x46\x11\xe9\xff\xf1\x48\xba\x69\xdb\x3c\x4e\xa2\xdd\xd9\x55\xfc\x46\xa5\x95\x22";
    let address = Address::new(Prefix::Mainnet, Version::PubKey, pubkey);
    let address_str: String = address.encode().unwrap();
    assert_eq!(address_str, "kaspa:qp0l70zd5x85ttwd6jv7g3s3a8llzj96d8dncn4zmhv4tlzx5k2jyqh70xmfj");
}

#[test]
fn test_address_from_pubkey_testnet() {
    let address = Address::new(Prefix::Testnet, Version::PubKey, &[0u8; 32]);
    let address_str: String = address.encode().unwrap();
    assert_eq!(address_str, "kaspatest:qqqqqqqqqqqqqqqqqqqqqqqqqqqqqqqqqqqqqqqqqqqqqqqqqqqqqhqrxplya");

    let address = Address::new(Prefix::Testnet, Version::PubKeyECDSA, &[0u8; 33]);
    let address_str: String = address.encode().unwrap();
    assert_eq!(address_str, "kaspatest:qyqqqqqqqqqqqqqqqqqqqqqqqqqqqqqqqqqqqqqqqqqqqqqqqqqqqqqhe837j2d");

    let pubkey_ecdsa = b"\xba\x01\xfc\x5f\x4e\x9d\x98\x79\x59\x9c\x69\xa3\xda\xfd\xb8\x35\xa7\x25\x5e\x5f\x2e\x93\x4e\x93\x22\xec\xd3\xaf\x19\x0a\xb0\xf6\x0e";
    let address = Address::new(Prefix::Testnet, Version::PubKeyECDSA, pubkey_ecdsa);
    let address_str: String = address.encode().unwrap();
    assert_eq!(address_str, "kaspatest:qxaqrlzlf6wes72en3568khahq66wf27tuhfxn5nytkd8tcep2c0vrse6gdmpks");
}

#[test]
fn test_address_from_string() {
    let address_str = "kaspa:qqqqqqqqqqqqqqqqqqqqqqqqqqqqqqqqqqqqqqqqqqqqqqqqqqqqqkx9awp4e";
    let address = Address::parse(address_str).expect("Failed to parse address");
    assert_eq!(address.prefix, Prefix::Mainnet);
    assert_eq!(address.version, Version::PubKey);
    assert_eq!(address.payload.len(), 32);

    let address_str = "kaspa:qp0l70zd5x85ttwd6jv7g3s3a8llzj96d8dncn4zmhv4tlzx5k2jyqh70xmfj";
    let address = Address::parse(address_str).expect("Failed to parse address");
    assert_eq!(address.prefix, Prefix::Mainnet);
    assert_eq!(address.version, Version::PubKey);
    assert_eq!(address.payload.len(), 32);
}

#[test]
fn test_address_roundtrip() {
    let test_cases = vec![
        ("kaspa:qqqqqqqqqqqqqqqqqqqqqqqqqqqqqqqqqqqqqqqqqqqqqqqqqqqqqkx9awp4e", Prefix::Mainnet, Version::PubKey),
        ("kaspa:qp0l70zd5x85ttwd6jv7g3s3a8llzj96d8dncn4zmhv4tlzx5k2jyqh70xmfj", Prefix::Mainnet, Version::PubKey),
        ("kaspatest:qqqqqqqqqqqqqqqqqqqqqqqqqqqqqqqqqqqqqqqqqqqqqqqqqqqqqhqrxplya", Prefix::Testnet, Version::PubKey),
        ("kaspatest:qyqqqqqqqqqqqqqqqqqqqqqqqqqqqqqqqqqqqqqqqqqqqqqqqqqqqqqhe837j2d", Prefix::Testnet, Version::PubKeyECDSA),
    ];

    for (address_str, expected_prefix, expected_version) in test_cases {
        let address = Address::parse(address_str).expect("Failed to parse address");
        assert_eq!(address.prefix, expected_prefix);
        assert_eq!(address.version, expected_version);

        let address_clone = address.clone();
        let serialized: String = address_clone.encode().unwrap();
        assert_eq!(serialized, address_str);
    }
}

#[test]
fn test_version_pubkey_ecdsa() {
    let pubkey_ecdsa = b"\xba\x01\xfc\x5f\x4e\x9d\x98\x79\x59\x9c\x69\xa3\xda\xfd\xb8\x35\xa7\x25\x5e\x5f\x2e\x93\x4e\x93\x22\xec\xd3\xaf\x19\x0a\xb0\xf6\x0e";
    assert_eq!(pubkey_ecdsa.len(), 33);

    let address = Address::new(Prefix::Mainnet, Version::PubKeyECDSA, pubkey_ecdsa);
    assert_eq!(address.version, Version::PubKeyECDSA);
    assert_eq!(address.payload.len(), 33);

    let address_str: String = address.encode().unwrap();
    assert!(address_str.starts_with("kaspa:"));
}

#[test]
fn decoding_gives_back_what_was_encoded() {
    let payload = [0u8; 32];
    let text = Address::new(Prefix::Mainnet, Version::PubKey, &payload).encode().unwrap();
    let back = Address::parse(&text).unwrap();
    assert_eq!(back.prefix, Prefix::Mainnet);
    assert_eq!(back.version, Version::PubKey);
    assert_eq!(back.payload, payload.to_vec());

    let payload = [0u8; 33];
    let text = Address::new(Prefix::Testnet, Version::PubKeyECDSA, &payload).encode().unwrap();
    let back = Address::parse(&text).unwrap();
    assert_eq!(back.prefix, Prefix::Testnet);
    assert_eq!(back.version, Version::PubKeyECDSA);
    assert_eq!(back.payload, payload.to_vec());

    let text = Address::new(Prefix::Devnet, Version::ScriptHash, &[9u8; 32]).encode().unwrap();
    assert!(text.starts_with("kaspadev:"));
    let back = Address::parse(&text).unwrap();
    assert_eq!(back.prefix, Prefix::Devnet);
    assert_eq!(back.version, Version::ScriptHash);
    assert_eq!(back.payload, vec![9u8; 32]);
    let text = Address::new(Prefix::Simnet, Version::PubKey, &[1u8; 32]).encode().unwrap();
    assert!(text.starts_with("kaspasim:"));
}

#[test]
fn a_payload_of_the_wrong_length_has_no_text() {
    let a = Address { prefix: Prefix::Mainnet, version: Version::PubKey, payload: vec![0u8; 33] };
    assert_eq!(a.encode(), None);
    let a = Address { prefix: Prefix::Mainnet, version: Version::PubKeyECDSA, payload: vec![] };
    assert_eq!(a.encode(), None);
    assert_eq!(Version::PubKey.public_key_len(), 32);
    assert_eq!(Version::PubKeyECDSA.public_key_len(), 33);
    assert_eq!(Version::ScriptHash.public_key_len(), 32);
}

#[test]
fn a_payload_that_cannot_be_taken_apart_is_refused() {
    let wrong = Some("The address payload has the wrong length".to_string());
    assert_eq!(Address::parse("kaspa:3xjng3c9").err(), wrong);
    assert_eq!(
        Address::parse("kaspa:qqqqqqqqqqqqqqqqqqqqqqqqqqqqqqqqqqqhsc8uvq").err(),
        wrong
    );
    assert_eq!(Address::parse("kaspatest:qqqqqqqq").err(), wrong);
    assert_eq!(Address::parse("kaspasim:qqqqqqqqq").err(), wrong);
    assert_eq!(Address::parse("kaspadev:qqqqqqqqqqqq").err(), wrong);
    assert_eq!(Address::parse("kaspa:qyqqqqqqqqqqqqqqqqqqqqqqqqqqqqqqqqqqqqqqqqqqqqqqqqqqqkx9awp4e").err(), wrong);
    assert!(!has_decodable_shape("kaspa:3xjng3c9"));
    assert!(has_decodable_shape("kaspa:qqqqqqqqqqqqqqqqqqqqqqqqqqqqqqqqqqqqqqqqqqqqqqqqqqqqqkx9awp4e"));
    assert!(has_decodable_shape("kaspa:qqqqqqq"));
    assert!(has_decodable_shape("doge:qqqqqqqq"));
    assert!(has_decodable_shape("kaspa:qqqqqqqQ"));
    assert!(has_decodable_shape("qqqqqqqq"));
    assert!(has_decodable_shape(""));
    assert!(has_decodable_shape("kaspa:7qqqqqqqqqqqqqqq"));
    assert_eq!(
        Address::parse("kaspa:qqqqqqq").err(),
        Some("The address payload is invalid".to_string())
    );
    assert_eq!(
        Address::parse("kaspa:qqqqqqqQ").err(),
        Some("The address contains an invalid character Q".to_string())
    );
    assert_eq!(
        Address::parse("kaspa:qqqqqqqqqqqqqqqqqqqqqqqqqqqqqqqqqqqqqqqqqqqqqqqqqqqqqkx9awp4f").err(),
        Some("The address checksum is invalid".to_string())
    );
    assert!(Address::parse("kaspa:7qqqqqqqqqqqqqqq").is_err());
}

#[test]
fn parsing_errors() {
    assert_eq!(
        Address::parse("qqqq").err(),
        Some("The address prefix is missing".to_string())
    );
    assert_eq!(
        Address::parse("doge:qqqq").err(),
        Some("The address has an invalid prefix doge".to_string())
    );
    assert!(Address::parse("kaspa:qqqqqqqqqqqqqqqqqqqqqqqqqqqqqqqqqqqqqqqqqqqqqqqqqqqqqkx9awp4f").is_err());
}

#[test]
fn kaspa_address_of_the_standard_phrase() {
    let a = derive_kaspa_address(PHRASE, None, 0).unwrap();
    assert_eq!(a.derivation_path, "m/44'/111111'/0'/0/0");
    assert!(a.address.starts_with("kaspa:"));
    let key = derive_key_from_mnemonic(PHRASE, None, 0).unwrap();
    assert_eq!(key.1, "m/44'/111111'/0'/0/0");
    let m = Mnemonic::parse_in_normalized(Language::English, PHRASE).unwrap();
    let secret = ExtendedPrivKey::derive(&m.to_seed(""), "m/44'/111111'/0'/0/0").unwrap().secret();
    assert_eq!(key.0, secret);
    let sk = secp256k1::SecretKey::from_slice(&secret).unwrap();
    let pk = secp256k1::PublicKey::from_secret_key(&secp256k1::Secp256k1::new(), &sk).serialize();
    assert_eq!(derive_kaspa_address_from_pubkey(&pk), Ok(a.address.clone()));
    let parsed = Address::parse(&a.address).unwrap();
    assert_eq!(parsed.payload, pk[1..].to_vec());
    assert_ne!(a.address, derive_kaspa_address(PHRASE, None, 1).unwrap().address);
    assert_eq!(a.address, derive_kaspa_address(PHRASE, None, 0).unwrap().address);
}

#[test]
fn kaspa_signing_matches_the_signer_crate() {
    let tx = KaspaTransaction {
        to: "kaspa:qqqqqqqqqqqqqqqqqqqqqqqqqqqqqqqqqqqqqqqqqqqqqqqqqqqqqkx9awp4e".to_string(),
        amount: "100".to_string(),
        fee: None,
    };
    let signed = sign_kaspa_transaction(PHRASE, None, 0, tx).unwrap();
    let request = "{\"to\":\"kaspa:qqqqqqqqqqqqqqqqqqqqqqqqqqqqqqqqqqqqqqqqqqqqqqqqqqqqqkx9awp4e\",\"amount\":\"100\",\"fee\":\"0\"}";
    let hash = sha2::Sha256::digest(request.as_bytes());
    assert_eq!(signed.transaction_hash, hex::encode(hash));
    let key = derive_key_from_mnemonic(PHRASE, None, 0).unwrap().0;
    let sk = secp256k1::SecretKey::from_slice(&key).unwrap();
    let message = secp256k1::Message::from_digest_slice(&hash).unwrap();
    let signature = secp256k1::Secp256k1::new().sign_ecdsa(&message, &sk).serialize_compact();
    assert_eq!(signed.raw_transaction, format!("{}{}", request, hex::encode(signature)));
    assert_eq!(signed.raw_transaction.len(), request.len() + 128);
    assert_eq!(signed.transaction_hash.len(), 64);

    let tx = KaspaTransaction { to: "a".to_string(), amount: "1".to_string(), fee: Some("7".to_string()) };
    let signed = sign_kaspa_transaction(PHRASE, None, 0, tx).unwrap();
    assert!(signed.raw_transaction.starts_with("{\"to\":\"a\",\"amount\":\"1\",\"fee\":\"7\"}"));
    assert_eq!(
        sign_kaspa_transaction("nope", None, 0, KaspaTransaction { to: "a".to_string(), amount: "1".to_string(), fee: None }).err(),
        Some("Invalid mnemonic: BadWordCount(1)".to_string())
    );
}

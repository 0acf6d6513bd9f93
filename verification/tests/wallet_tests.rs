use solana_wallet_gateway::error::ServiceError;
use solana_wallet_gateway::keys::create_wallet;
use solana_wallet_gateway::keys::decode_secret_key;
use solana_wallet_gateway::keys::parse_address;

#[test]
fn create_wallet_yields_distinct_pairs() {
    let a = create_wallet();
    let b = create_wallet();
    assert_ne!(a.public_key, b.public_key);
    assert_ne!(a.secret_key, b.secret_key);
}

#[test]
fn create_wallet_round_trips() {
    let w = create_wallet();
    let (kb, pk) = decode_secret_key(&w.secret_key).expect("fresh secret key must decode");
    assert_eq!(kb.len(), 64);
    assert_eq!(pk.len(), 32);
    assert_eq!(&kb[32..], &pk[..]);
    // The derived public key is the one the wallet reported.
    let pk_text = solana_sdk::bs58::encode(&pk).into_string();
    assert_eq!(pk_text, w.public_key);
    // And the public key is a valid address for the other operations.
    let parsed = parse_address(&w.public_key).expect("own public key must parse");
    assert_eq!(parsed, pk);
}

#[test]
fn malformed_addresses_are_rejected() {
    for bad in [
        "",
        "not-base58-!!",
        "0OIl",                                // characters outside the base58 alphabet
        "abc",                                 // decodes, but far too short
        "11111111111111111111111111111111111111111111111", // over the length cap
    ] {
        assert_eq!(parse_address(bad), Err(ServiceError::InvalidAddress));
    }
}

#[test]
fn system_program_address_parses() {
    let parsed = parse_address("11111111111111111111111111111111").expect("valid address");
    assert_eq!(parsed, vec![0u8; 32]);
}

#[test]
fn malformed_secret_keys_are_rejected() {
    // Not base58 at all.
    assert_eq!(decode_secret_key("!!!").unwrap_err(), ServiceError::InvalidKey);
    // Valid base58 of the wrong length.
    let short = solana_sdk::bs58::encode(&[1u8, 2, 3]).into_string();
    assert_eq!(decode_secret_key(&short).unwrap_err(), ServiceError::InvalidKey);
    // 64 bytes whose public half does not match the secret half.
    let w = create_wallet();
    let (mut kb, _) = decode_secret_key(&w.secret_key).unwrap();
    kb[63] ^= 0xff;
    let tampered = solana_sdk::bs58::encode(&kb).into_string();
    assert_eq!(decode_secret_key(&tampered).unwrap_err(), ServiceError::InvalidKey);
}

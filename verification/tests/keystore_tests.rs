use canary_sdk::error::{KeystoreError, SignatureScheme};
use canary_sdk::keystore::{parse_bech32_private_key, DecodedKey, ParsedPrivateKey};

fn sample_secret() -> Vec<u8> {
    (1u8..=32u8).collect()
}

fn decoded_ed25519() -> Result<DecodedKey, String> {
    Ok(DecodedKey {
        scheme: SignatureScheme::ED25519,
        secret: sample_secret(),
    })
}

#[test]
fn test_parse_bech32_private_key_ed25519() {
    let parsed = parse_bech32_private_key(decoded_ed25519()).expect("Failed to parse Bech32 key");

    assert_eq!(parsed.scheme, SignatureScheme::ED25519);
    assert_eq!(parsed.flag, 0x00);
    assert_eq!(parsed.private_key_bytes.to_vec(), sample_secret());

    let again = parse_bech32_private_key(decoded_ed25519()).expect("Failed to parse Bech32 key");
    assert_eq!(parsed, again);
}

#[test]
fn test_parse_bech32_private_key_invalid_format() {
    let result = parse_bech32_private_key(Err("invalid_key".to_string()));
    assert!(result.is_err());
    match result.unwrap_err() {
        KeystoreError::InvalidBech32(_) => {}
        e => panic!("Expected InvalidBech32 error, got: {:?}", e),
    }
}

#[test]
fn test_parse_bech32_private_key_wrong_prefix() {
    let result = parse_bech32_private_key(Err("sui1invalid".to_string()));
    assert!(result.is_err());
    assert_eq!(
        result.unwrap_err(),
        KeystoreError::InvalidBech32("sui1invalid".to_string())
    );
}

#[test]
fn test_parsed_private_key_to_keypair() {
    let parsed = parse_bech32_private_key(decoded_ed25519()).expect("Failed to parse");

    let encoded = parsed.encoded();
    assert_eq!(encoded.len(), 33);
    assert_eq!(encoded[0], 0x00);
    assert_eq!(encoded[1..].to_vec(), sample_secret());
}

#[test]
fn test_parsed_private_key_private_key_bytes_length() {
    let parsed = parse_bech32_private_key(decoded_ed25519()).expect("Failed to parse");

    assert_eq!(parsed.private_key_bytes.len(), 32);
}

#[test]
fn test_parsed_private_key_flag_byte_matches_scheme() {
    let parsed = parse_bech32_private_key(decoded_ed25519()).expect("Failed to parse");

    assert_eq!(parsed.scheme, SignatureScheme::ED25519);
    assert_eq!(parsed.flag, SignatureScheme::ED25519.flag());
    assert_eq!(parsed.flag, 0x00);
}

#[test]
fn parse_keeps_scheme_and_flag_of_each_key_pair_scheme() {
    for (scheme, flag) in [
        (SignatureScheme::ED25519, 0x00u8),
        (SignatureScheme::Secp256k1, 0x01u8),
        (SignatureScheme::Secp256r1, 0x02u8),
    ] {
        let parsed = parse_bech32_private_key(Ok(DecodedKey {
            scheme,
            secret: vec![7u8; 32],
        }))
        .expect("Failed to parse");
        assert_eq!(parsed.scheme, scheme);
        assert_eq!(parsed.flag, flag);
        assert_eq!(parsed.private_key_bytes, [7u8; 32]);
        assert_eq!(parsed.encoded()[0], flag);
    }
}

#[test]
fn parse_refuses_schemes_without_key_pairs() {
    for scheme in [
        SignatureScheme::MultiSig,
        SignatureScheme::BLS12381,
        SignatureScheme::ZkLoginAuthenticator,
        SignatureScheme::PasskeyAuthenticator,
    ] {
        let result = parse_bech32_private_key(Ok(DecodedKey {
            scheme,
            secret: vec![0u8; 32],
        }));
        assert_eq!(result, Err(KeystoreError::UnsupportedKeyScheme(scheme)));
    }
}

#[test]
fn parse_refuses_wrong_secret_lengths() {
    for len in [0usize, 1, 31, 33, 64] {
        let result = parse_bech32_private_key(Ok(DecodedKey {
            scheme: SignatureScheme::ED25519,
            secret: vec![9u8; len],
        }));
        assert_eq!(result, Err(KeystoreError::InvalidKeyLength(len)));
    }
}

#[test]
fn parse_looks_at_the_scheme_before_the_length() {
    let result = parse_bech32_private_key(Ok(DecodedKey {
        scheme: SignatureScheme::MultiSig,
        secret: vec![0u8; 5],
    }));
    assert_eq!(
        result,
        Err(KeystoreError::UnsupportedKeyScheme(SignatureScheme::MultiSig))
    );
}

#[test]
fn scheme_flags_are_the_documented_bytes() {
    assert_eq!(SignatureScheme::ED25519.flag(), 0);
    assert_eq!(SignatureScheme::Secp256k1.flag(), 1);
    assert_eq!(SignatureScheme::Secp256r1.flag(), 2);
    assert_eq!(SignatureScheme::MultiSig.flag(), 3);
    assert_eq!(SignatureScheme::BLS12381.flag(), 4);
    assert_eq!(SignatureScheme::ZkLoginAuthenticator.flag(), 5);
    assert_eq!(SignatureScheme::PasskeyAuthenticator.flag(), 6);
}

#[test]
fn encoded_key_is_flag_then_secret() {
    let key = ParsedPrivateKey {
        private_key_bytes: [0xabu8; 32],
        scheme: SignatureScheme::Secp256k1,
        flag: 0x01,
    };
    let mut expected = vec![0x01u8];
    expected.extend_from_slice(&[0xabu8; 32]);
    assert_eq!(key.encoded(), expected);
}

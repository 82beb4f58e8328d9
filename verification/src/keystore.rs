//! Secret keys as plain values: what decoding an exported key yields, and
//! the 33-byte form from which a key pair is rebuilt.
//!
//! Decoding the Bech32 text and deriving an address are the work of the
//! cryptographic library; the caller hands in what it decoded.

use vstd::prelude::*;
use crate::error::{KeystoreError, KeystoreErrorView, SignatureScheme};

verus! {

/// Number of bytes of the raw secret of a key.
pub const PRIVATE_KEY_LENGTH: usize = 32;

impl SignatureScheme {
    /// The flag byte of the scheme, as a number.
    pub open spec fn flag_spec(&self) -> u8 {
        match self {
            SignatureScheme::ED25519 => 0x00,
            SignatureScheme::Secp256k1 => 0x01,
            SignatureScheme::Secp256r1 => 0x02,
            SignatureScheme::MultiSig => 0x03,
            SignatureScheme::BLS12381 => 0x04,
            SignatureScheme::ZkLoginAuthenticator => 0x05,
            SignatureScheme::PasskeyAuthenticator => 0x06,
        }
    }

    /// Whether a single key pair can be of this scheme.
    pub open spec fn has_key_pair(&self) -> bool {
        matches!(
            self,
            SignatureScheme::ED25519 | SignatureScheme::Secp256k1 | SignatureScheme::Secp256r1
        )
    }

    /// The flag byte that stands for the scheme in an encoded key.
    pub fn flag(&self) -> (res: u8)
        ensures
            res == self.flag_spec(),
    {
        match self {
            SignatureScheme::ED25519 => 0x00,
            SignatureScheme::Secp256k1 => 0x01,
            SignatureScheme::Secp256r1 => 0x02,
            SignatureScheme::MultiSig => 0x03,
            SignatureScheme::BLS12381 => 0x04,
            SignatureScheme::ZkLoginAuthenticator => 0x05,
            SignatureScheme::PasskeyAuthenticator => 0x06,
        }
    }
}

/// What the cryptographic library decoded from an exported key: the scheme
/// of the key pair and its secret without the flag.
#[derive(Clone, Debug, PartialEq, Eq)]
pub struct DecodedKey {
    pub scheme: SignatureScheme,
    pub secret: Vec<u8>,
}

/// Parsed private key information: the raw secret, its scheme, and the flag
/// byte that goes in front of the secret in the encoded form.
#[derive(Clone, Copy, Debug, PartialEq, Eq)]
pub struct ParsedPrivateKey {
    /// The raw private key bytes.
    pub private_key_bytes: [u8; 32],
    /// The cryptographic scheme used.
    pub scheme: SignatureScheme,
    /// The flag byte of the encoding.
    pub flag: u8,
}

impl ParsedPrivateKey {
    /// The 33-byte form of the key: the flag, then the secret.
    pub open spec fn encoded_spec(&self) -> Seq<u8> {
        seq![self.flag] + self.private_key_bytes@
    }

    /// The 33-byte form from which the key pair is rebuilt: the flag byte
    /// followed by the 32 bytes of the secret.
    pub fn encoded(&self) -> (res: Vec<u8>)
        ensures
            res@ == self.encoded_spec(),
            res@.len() == 1 + PRIVATE_KEY_LENGTH,
    {
        let mut out: Vec<u8> = Vec::new();
        out.push(self.flag);
        let mut i: usize = 0;
        while i < PRIVATE_KEY_LENGTH
            invariant
                i <= PRIVATE_KEY_LENGTH,
                out@.len() == 1 + i,
                out@[0] == self.flag,
                forall|j: int| 0 <= j < i ==> out@[1 + j] == self.private_key_bytes@[j],
            decreases PRIVATE_KEY_LENGTH - i,
        {
            out.push(self.private_key_bytes[i]);
            i = i + 1;
        }
        assert(out@ =~= self.encoded_spec());
        out
    }
}

/// Turns what was decoded from a Bech32-encoded private key into a
/// [`ParsedPrivateKey`].
///
/// A text that could not be decoded is refused with the decoder's words.  A
/// key of a scheme without single key pairs is refused, and so is a secret
/// that is not 32 bytes long; the scheme is looked at first.  Nothing of a
/// refused key is returned.
pub fn parse_bech32_private_key(decoded: Result<DecodedKey, String>) -> (res: Result<
    ParsedPrivateKey,
    KeystoreError,
>)
    ensures
        match decoded {
            Err(words) => res matches Err(error) && error@ == KeystoreErrorView::InvalidBech32(
                words@,
            ),
            Ok(key) => if !key.scheme.has_key_pair() {
                res matches Err(error) && error@ == KeystoreErrorView::UnsupportedKeyScheme(
                    key.scheme,
                )
            } else if key.secret@.len() != PRIVATE_KEY_LENGTH {
                res matches Err(error) && error@ == KeystoreErrorView::InvalidKeyLength(
                    key.secret@.len() as usize,
                )
            } else {
                res matches Ok(parsed) && parsed.private_key_bytes@ == key.secret@ && parsed.scheme
                    == key.scheme && parsed.flag == key.scheme.flag_spec()
            },
        },
{
    let key = match decoded {
        Ok(key) => key,
        Err(words) => {
            return Err(KeystoreError::InvalidBech32(words));
        },
    };
    match key.scheme {
        SignatureScheme::ED25519 | SignatureScheme::Secp256k1 | SignatureScheme::Secp256r1 => {},
        _ => {
            return Err(KeystoreError::UnsupportedKeyScheme(key.scheme));
        },
    }
    let flag = key.scheme.flag();
    if key.secret.len() != PRIVATE_KEY_LENGTH {
        return Err(KeystoreError::InvalidKeyLength(key.secret.len()));
    }
    let mut bytes: [u8; 32] = [0u8; 32];
    let mut i: usize = 0;
    while i < PRIVATE_KEY_LENGTH
        invariant
            i <= PRIVATE_KEY_LENGTH,
            key.secret@.len() == PRIVATE_KEY_LENGTH,
            forall|j: int| 0 <= j < i ==> bytes@[j] == key.secret@[j],
        decreases PRIVATE_KEY_LENGTH - i,
    {
        bytes.set(i, key.secret[i]);
        i = i + 1;
    }
    assert(bytes@ =~= key.secret@);
    Ok(ParsedPrivateKey { private_key_bytes: bytes, scheme: key.scheme, flag })
}

/// A key that was parsed carries its scheme's flag, and its encoded form is
/// that flag followed by the secret that was decoded: 33 bytes in all.
pub proof fn lemma_parsed_key_encoding(key: DecodedKey, parsed: ParsedPrivateKey)
    requires
        key.scheme.has_key_pair(),
        key.secret@.len() == PRIVATE_KEY_LENGTH,
        parsed.private_key_bytes@ == key.secret@,
        parsed.scheme == key.scheme,
        parsed.flag == key.scheme.flag_spec(),
    ensures
        parsed.encoded_spec() == seq![key.scheme.flag_spec()] + key.secret@,
        parsed.encoded_spec().len() == 33,
        parsed.flag <= 2,
        parsed.encoded_spec()[0] == parsed.flag,
{
}

} // verus!

//! Addresses, keypairs and their base58 text forms.
//!
//! The chain identifies an account by 32 public-key bytes, written as a
//! base58 string; a signing keypair is 64 bytes (32 secret, then the 32
//! matching public-key bytes). The cryptography itself is consumed from the
//! ledger's SDK behind the trusted wrappers below; everything the handlers
//! decide from it is verified over the names `base58_of`, `base58_decoded`
//! and `keypair_bytes_wf`.
use vstd::prelude::*;
use crate::error::ServiceError;

verus! {

/// The base58 text of a byte string, as `bs58::encode` produces it.
pub uninterp spec fn base58_of(b: Seq<u8>) -> Seq<char>;

/// What `bs58::decode` yields on a string: the bytes, or `None` where the
/// string is no valid base58.
pub uninterp spec fn base58_decoded(s: Seq<char>) -> Option<Seq<u8>>;

/// Whether 64 candidate bytes form a valid keypair: the secret half must
/// yield exactly the public half, as `Keypair::from_bytes` checks.
pub uninterp spec fn keypair_bytes_wf(b: Seq<u8>) -> bool;

/// Relies on bs58::encode (via the ledger SDK's re-export): the result is
/// the base58 form of the bytes, and bs58::decode of that form gives the
/// bytes back.
#[verifier::external_body]
fn base58_encode_raw(b: &Vec<u8>) -> (r: String)
    ensures
        r@ == base58_of(b@),
        base58_decoded(r@) == Some(b@),
{
    solana_sdk::bs58::encode(b.as_slice()).into_string()
}

/// Relies on bs58::decode (via the ledger SDK's re-export): it returns the
/// decoded bytes exactly when the string is valid base58.
#[verifier::external_body]
fn base58_decode_raw(s: &str) -> (r: Result<Vec<u8>, ()>)
    ensures
        r matches Ok(v) ==> base58_decoded(s@) == Some(v@),
        r is Err ==> base58_decoded(s@) is None,
{
    solana_sdk::bs58::decode(s).into_vec().map_err(|_| ())
}

/// Relies on Keypair::new: a fresh random keypair whose 64 `to_bytes` bytes
/// are accepted back by `Keypair::from_bytes`.
#[verifier::external_body]
fn keypair_generate() -> (r: Vec<u8>)
    ensures
        r@.len() == 64,
        keypair_bytes_wf(r@),
{
    solana_sdk::signature::Keypair::new().to_bytes().to_vec()
}

/// Relies on Keypair::from_bytes: it accepts exactly the well-formed
/// 64-byte arrays, and the keypair's public key is the second half of the
/// bytes.
#[verifier::external_body]
pub(crate) fn keypair_pubkey_from_bytes(b: &Vec<u8>) -> (r: Result<Vec<u8>, ()>)
    ensures
        r is Ok <==> keypair_bytes_wf(b@),
        r matches Ok(p) ==> b@.len() == 64 && p@ == b@.subrange(32, 64),
{
    match solana_sdk::signature::Keypair::from_bytes(b.as_slice()) {
        Ok(k) => Ok(solana_sdk::signer::Signer::pubkey(&k).to_bytes().to_vec()),
        Err(_) => Err(()),
    }
}

/// A string names a valid account address when it is at most 44 characters
/// of base58 that decode to exactly 32 bytes, as `Pubkey::from_str` checks.
pub open spec fn spec_valid_address(s: Seq<char>) -> bool {
    s.len() <= 44 && match base58_decoded(s) {
        Some(v) => v.len() == 32,
        None => false,
    }
}

/// The 32 address bytes a valid address string decodes to.
pub open spec fn spec_address_bytes(s: Seq<char>) -> Seq<u8>
    recommends
        spec_valid_address(s),
{
    match base58_decoded(s) {
        Some(v) => v,
        None => Seq::empty(),
    }
}

/// Relies on Pubkey::from_str: it succeeds exactly on strings of at most 44
/// characters whose base58 decoding has exactly 32 bytes, and returns those
/// bytes.
#[verifier::external_body]
fn pubkey_parse(s: &str) -> (r: Result<Vec<u8>, ()>)
    ensures
        r is Ok <==> spec_valid_address(s@),
        r matches Ok(v) ==> v@ == spec_address_bytes(s@) && v@.len() == 32,
{
    match <solana_sdk::pubkey::Pubkey as std::str::FromStr>::from_str(s) {
        Ok(p) => Ok(p.to_bytes().to_vec()),
        Err(_) => Err(()),
    }
}

/// Parse a caller-supplied account address, rejecting anything malformed
/// before any node work.
pub fn parse_address(s: &str) -> (r: Result<Vec<u8>, ServiceError>)
    ensures
        r is Ok <==> spec_valid_address(s@),
        r matches Ok(v) ==> v@ == spec_address_bytes(s@) && v@.len() == 32,
        r matches Err(e) ==> e == ServiceError::InvalidAddress,
{
    match pubkey_parse(s) {
        Ok(v) => Ok(v),
        Err(_) => Err(ServiceError::InvalidAddress),
    }
}

/// A string names a valid secret key when it is base58 and its decoded
/// bytes are a well-formed keypair.
pub open spec fn spec_valid_secret(s: Seq<char>) -> bool {
    match base58_decoded(s) {
        Some(b) => keypair_bytes_wf(b),
        None => false,
    }
}

/// The 64 keypair bytes a valid secret-key string decodes to.
pub open spec fn spec_secret_bytes(s: Seq<char>) -> Seq<u8> {
    match base58_decoded(s) {
        Some(b) => b,
        None => Seq::empty(),
    }
}

/// Decode a caller-supplied secret key into the 64 keypair bytes and the 32
/// public-key bytes they carry, rejecting anything malformed before any
/// node work.
pub fn decode_secret_key(s: &str) -> (r: Result<(Vec<u8>, Vec<u8>), ServiceError>)
    ensures
        r is Ok <==> spec_valid_secret(s@),
        r matches Ok(p) ==> p.0@ == spec_secret_bytes(s@) && p.0@.len() == 64
            && keypair_bytes_wf(p.0@) && p.1@ == p.0@.subrange(32, 64),
        r matches Err(e) ==> e == ServiceError::InvalidKey,
{
    let bytes = match base58_decode_raw(s) {
        Ok(b) => b,
        Err(_) => {
            return Err(ServiceError::InvalidKey);
        },
    };
    match keypair_pubkey_from_bytes(&bytes) {
        Ok(pk) => Ok((bytes, pk)),
        Err(_) => Err(ServiceError::InvalidKey),
    }
}

/// A freshly generated wallet: the public key in address text form, the
/// secret key in base58 keypair form.
#[derive(Debug, Clone)]
pub struct WalletCredential {
    pub public_key: String,
    pub secret_key: String,
}

/// Generate a new wallet. No node interaction happens. The returned pair is
/// consistent: decoding the secret key gives well-formed keypair bytes, and
/// the public-key text is the base58 form of their public half.
pub fn create_wallet() -> (r: WalletCredential)
    ensures
        exists|kb: Seq<u8>|
            #[trigger] keypair_bytes_wf(kb) && kb.len() == 64 && base58_decoded(r.secret_key@)
                == Some(kb) && r.public_key@ == base58_of(kb.subrange(32, 64)),
{
    let kb = keypair_generate();
    let pk = match keypair_pubkey_from_bytes(&kb) {
        Ok(pk) => pk,
        Err(_) => {
            proof {
                assert(false);
            }
            unreached()
        },
    };
    let public_key = base58_encode_raw(&pk);
    let secret_key = base58_encode_raw(&kb);
    let r = WalletCredential { public_key, secret_key };
    proof {
        assert(keypair_bytes_wf(kb@) && kb@.len() == 64 && base58_decoded(r.secret_key@) == Some(
            kb@,
        ) && r.public_key@ == base58_of(kb@.subrange(32, 64)));
    }
    r
}

} // verus!

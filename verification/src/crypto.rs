//! Trusted bindings to the cryptographic primitives.
//!
//! Each primitive is a pure function of its byte arguments; its output is
//! named by an uninterpreted spec function, and the verified derivation
//! logic is stated over those names.

use vstd::prelude::*;

verus! {

/// The 64-byte key stretched from a passphrase by scrypt with cost
/// exponent 15, block size 8, parallelism 2 and an empty salt.
pub uninterp spec fn scrypt_stretched(passphrase: Seq<u8>) -> Seq<u8>;

/// The HMAC-SHA-512 digest of `msg` under `key`.
pub uninterp spec fn hmac_sha512(key: Seq<u8>, msg: Seq<u8>) -> Seq<u8>;

/// The HMAC-SHA3-512 digest of `msg` under `key`.
pub uninterp spec fn hmac_sha3_512(key: Seq<u8>, msg: Seq<u8>) -> Seq<u8>;

/// Relies on scrypt::scrypt (with scrypt::Params::new): a deterministic,
/// memory-hard stretch of the passphrase bytes alone. The parameters here
/// are fixed — log_n 15, r 8, p 2, an empty salt, a 64-byte output — and at
/// these the parameter check and the stretch itself always succeed: the
/// check only rejects log_n >= 64, r = 0, p = 0 or an overflowing product,
/// and the stretch only rejects an empty or oversized output buffer.
#[verifier::external_body]
pub(crate) fn stretch_passphrase(passphrase: &Vec<u8>) -> (r: Option<Vec<u8>>)
    ensures
        r is Some,
        r matches Some(k) ==> k@ == scrypt_stretched(passphrase@) && k@.len() == 64,
{
    let params = match scrypt::Params::new(15, 8, 2) {
        Ok(p) => p,
        Err(_) => return None,
    };
    let mut out = vec![0u8; 64];
    match scrypt::scrypt(passphrase.as_slice(), b"", &params, &mut out) {
        Ok(()) => Some(out),
        Err(_) => None,
    }
}

/// Relies on hmac::Hmac<sha2::Sha512>: the digest is a deterministic
/// function of the key and message bytes, 64 bytes long, and the key
/// setup accepts keys of any length.
#[verifier::external_body]
pub(crate) fn hmac_sha512_digest(key: &Vec<u8>, msg: &Vec<u8>) -> (r: Vec<u8>)
    ensures
        r@ == hmac_sha512(key@, msg@),
        r@.len() == 64,
{
    let mut mac = <hmac::Hmac<sha2::Sha512> as hmac::KeyInit>::new_from_slice(key.as_slice())
        .expect("HMAC accepts keys of any length");
    hmac::Mac::update(&mut mac, msg.as_slice());
    hmac::Mac::finalize(mac).into_bytes().to_vec()
}

/// Relies on hmac::SimpleHmac<sha3::Sha3_512>: the digest is a deterministic
/// function of the key and message bytes, 64 bytes long, and the key
/// setup accepts keys of any length.
#[verifier::external_body]
pub(crate) fn hmac_sha3_512_digest(key: &Vec<u8>, msg: &Vec<u8>) -> (r: Vec<u8>)
    ensures
        r@ == hmac_sha3_512(key@, msg@),
        r@.len() == 64,
{
    let mut mac = <hmac::SimpleHmac<sha3::Sha3_512> as hmac::KeyInit>::new_from_slice(
        key.as_slice(),
    ).expect("HMAC accepts keys of any length");
    hmac::Mac::update(&mut mac, msg.as_slice());
    hmac::Mac::finalize(mac).into_bytes().to_vec()
}

} // verus!

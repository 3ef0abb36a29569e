//! The cryptographic collaborators: a keccak digest and an ed25519
//! signature scheme, each behind a trusted wrapper, and names for what
//! they return.

use vstd::prelude::*;

use ed25519_dalek::Verifier;

use crate::codec::hex_rep;

verus! {

/// The keccak digest (SHA256 security level, f1600 state) of a sequence of
/// appended parts. A pure function of the parts alone.
pub uninterp spec fn keccak_of(parts: Seq<Seq<char>>) -> Seq<u8>;

/// The ed25519 signature produced from a secret key, the public key handed
/// to the signer, and a message; `None` exactly when the key bytes are
/// rejected. A pure function of the three arguments: the scheme signs
/// deterministically, without randomness.
pub uninterp spec fn ed_sign_of(sk: Seq<u8>, pk: Seq<u8>, msg: Seq<char>) -> Option<Seq<u8>>;

/// The public key derived from an ed25519 secret key.
pub uninterp spec fn pub_of(sk: Seq<u8>) -> Seq<u8>;

/// Whether an ed25519 public key accepts a signature over a message.
/// A pure function of the three arguments.
pub uninterp spec fn ed_verifies(pk: Seq<u8>, msg: Seq<char>, sig: Seq<u8>) -> bool;

/// The signature bytes a signer hands back: the signature itself, or no
/// bytes at all where the key bytes were rejected.
pub open spec fn sig_bytes_of(sk: Seq<u8>, pk: Seq<u8>, msg: Seq<char>) -> Seq<u8> {
    match ed_sign_of(sk, pk, msg) {
        Some(s) => s,
        None => Seq::empty(),
    }
}

/// Relies on `keccak_rust::Keccak`: with a fixed security level and state
/// width, appending each part in order and squeezing once is deterministic
/// in the sequence of parts (each append absorbs its own padded block).
#[verifier::external_body]
fn keccak_parts(parts: &Vec<String>) -> (r: Vec<u8>)
    ensures
        r@ == keccak_of(parts.deep_view()),
{
    let mut keccak = keccak_rust::Keccak::new(
        keccak_rust::SecurityLevel::SHA256,
        keccak_rust::StateBitsWidth::F1600,
    );
    for part in parts.iter() {
        keccak.append(part.as_bytes());
    }
    keccak.hash()
}

/// Relies on `hex::encode`: lower-case hex, two digits per byte, high
/// nibble first.
#[verifier::external_body]
fn hex_string(bytes: &Vec<u8>) -> (r: String)
    ensures
        r@ == hex_rep(bytes@),
{
    hex::encode(bytes.as_slice())
}

/// The hex rendering of the keccak digest of the given parts.
pub fn digest_hex(parts: &Vec<String>) -> (r: String)
    ensures
        r@ == hex_rep(keccak_of(parts.deep_view())),
{
    let digest = keccak_parts(parts);
    hex_string(&digest)
}

/// The hex rendering of a byte sequence.
pub fn bytes_hex(bytes: &Vec<u8>) -> (r: String)
    ensures
        r@ == hex_rep(bytes@),
{
    hex_string(bytes)
}

/// Relies on `ed25519_dalek::Keypair::generate` over `rand`'s OS entropy
/// source: the keys are 32 bytes each and the public key is the one derived
/// from the secret key.
#[verifier::external_body]
pub(crate) fn ed25519_generate() -> (r: (Vec<u8>, Vec<u8>))
    ensures
        r.0@.len() == 32,
        r.1@.len() == 32,
        r.1@ == pub_of(r.0@),
{
    let mut csprng = rand::rngs::OsRng {};
    let keypair = ed25519_dalek::Keypair::generate(&mut csprng);
    (keypair.secret.as_bytes().to_vec(), keypair.public.as_bytes().to_vec())
}

/// Relies on `ed25519_dalek::ExpandedSecretKey::sign`, which signs
/// deterministically, and on `SecretKey::from_bytes` / `PublicKey::from_bytes`,
/// which reject exactly the malformed key bytes; a well-formed pair (the
/// public key derived from a 32-byte secret) is never rejected, and its
/// signature verifies.
#[verifier::external_body]
pub(crate) fn ed25519_sign(sk: &Vec<u8>, pk: &Vec<u8>, msg: &str) -> (r: Option<Vec<u8>>)
    ensures
        r.deep_view() == ed_sign_of(sk@, pk@, msg@),
        sk@.len() == 32 && pk@ == pub_of(sk@) ==> r is Some && ed_verifies(pk@, msg@, r->0@),
{
    let secret = match ed25519_dalek::SecretKey::from_bytes(sk.as_slice()) {
        Ok(secret) => secret,
        Err(_) => return None,
    };
    let public = match ed25519_dalek::PublicKey::from_bytes(pk.as_slice()) {
        Ok(public) => public,
        Err(_) => return None,
    };
    let expanded = ed25519_dalek::ExpandedSecretKey::from(&secret);
    Some(expanded.sign(msg.as_bytes(), &public).to_bytes().to_vec())
}

/// Relies on `ed25519_dalek::PublicKey::verify`: deterministic in the key,
/// message and signature bytes; malformed key or signature bytes are
/// rejected, which counts as verification failure.
#[verifier::external_body]
pub(crate) fn ed25519_verify(pk: &Vec<u8>, msg: &str, sig: &Vec<u8>) -> (r: bool)
    ensures
        r == ed_verifies(pk@, msg@, sig@),
{
    let public = match ed25519_dalek::PublicKey::from_bytes(pk.as_slice()) {
        Ok(public) => public,
        Err(_) => return false,
    };
    let signature = match ed25519_dalek::Signature::try_from(sig.as_slice()) {
        Ok(signature) => signature,
        Err(_) => return false,
    };
    public.verify(msg.as_bytes(), &signature).is_ok()
}

} // verus!

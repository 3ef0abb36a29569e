//! A signing keypair, held as the byte images of its two keys.

use vstd::prelude::*;
use vstd::string::StringExecFns;

use crate::codec::hex_rep;
use crate::crypto::{
    digest_hex, ed25519_generate, ed25519_sign, ed25519_verify, ed_verifies, keccak_of, pub_of,
    sig_bytes_of,
};
use crate::signature::Signature;

verus! {

/// The identifier derived from a public key: the hex digest of its hex
/// rendering.
pub open spec fn key_hash(pk: Seq<u8>) -> Seq<char> {
    hex_rep(keccak_of(seq![hex_rep(pk)]))
}

/// A private signing key and its corresponding public key, each as its
/// 32-byte image.
#[derive(Debug, Clone)]
pub struct KeyPair {
    pub private_key: Vec<u8>,
    pub public_key: Vec<u8>,
}

impl KeyPair {
    /// A keypair is well formed when its public key is the one derived from
    /// its 32-byte private key.
    pub open spec fn wf(&self) -> bool {
        &&& self.private_key@.len() == 32
        &&& self.public_key@ == pub_of(self.private_key@)
    }

    /// A fresh keypair.
    pub fn new() -> (r: Self)
        ensures
            r.wf(),
            r.public_key@.len() == 32,
    {
        Self::generate()
    }

    /// A keypair from the byte images of its two keys.
    pub fn from(private_key: Vec<u8>, public_key: Vec<u8>) -> (r: Self)
        ensures
            r.private_key == private_key,
            r.public_key == public_key,
    {
        KeyPair { private_key, public_key }
    }

    /// A keypair from a cryptographically secure random source.
    pub fn generate() -> (r: Self)
        ensures
            r.wf(),
            r.public_key@.len() == 32,
    {
        let (private_key, public_key) = ed25519_generate();
        KeyPair { private_key, public_key }
    }

    /// Signs the message with the private key. A well-formed keypair always
    /// produces a signature that its own public key accepts.
    pub fn sign(&self, message: &String) -> (r: Signature)
        ensures
            r.0@ == sig_bytes_of(self.private_key@, self.public_key@, message@),
            self.wf() ==> ed_verifies(self.public_key@, message@, r.0@),
    {
        match ed25519_sign(&self.private_key, &self.public_key, message.as_str()) {
            Some(bytes) => Signature(bytes),
            None => Signature(Vec::new()),
        }
    }

    /// Whether the public key accepts the signature over the message.
    pub fn verify(&self, message: &String, sig: &Signature) -> (r: bool)
        ensures
            r == ed_verifies(self.public_key@, message@, sig.0@),
    {
        ed25519_verify(&self.public_key, message.as_str(), &sig.0)
    }

    /// The identifier derived from the public key.
    pub fn hash(&self) -> (r: String)
        ensures
            r@ == key_hash(self.public_key@),
    {
        let rendered = crate::crypto::bytes_hex(&self.public_key);
        let mut parts: Vec<String> = Vec::new();
        parts.push(rendered);
        let digest = digest_hex(&parts);
        proof {
            assert(parts.deep_view() =~= seq![hex_rep(self.public_key@)]);
        }
        digest
    }

    /// Prints both keys in hex, each on its own line.
    pub fn print_keys(&self) {
        let mut line = String::from_str("Private Key: 0x");
        line.append(crate::crypto::bytes_hex(&self.private_key).as_str());
        crate::console::emit_line(line.as_str());
        let mut line = String::from_str("Public Key: 0x");
        line.append(crate::crypto::bytes_hex(&self.public_key).as_str());
        crate::console::emit_line(line.as_str());
    }

    /// A copy of this keypair, equal byte for byte.
    pub fn duplicate(&self) -> (r: Self)
        ensures
            r.private_key@ == self.private_key@,
            r.public_key@ == self.public_key@,
    {
        let private_key = copy_bytes(&self.private_key);
        let public_key = copy_bytes(&self.public_key);
        KeyPair { private_key, public_key }
    }
}

/// A copy of a byte vector, equal byte for byte.
pub fn copy_bytes(v: &Vec<u8>) -> (r: Vec<u8>)
    ensures
        r@ == v@,
{
    let mut r: Vec<u8> = Vec::new();
    let mut i: usize = 0;
    while i < v.len()
        invariant
            i <= v.len(),
            r@ =~= v@.subrange(0, i as int),
        decreases v.len() - i,
    {
        r.push(v[i]);
        i = i + 1;
    }
    proof {
        assert(r@ =~= v@);
    }
    r
}

} // verus!

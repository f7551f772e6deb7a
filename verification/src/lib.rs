use vstd::prelude::*;

pub mod codec;
pub mod engine;
pub mod keys;
pub mod orchestrator;

pub use codec::{
    decode_public_key, decode_secret_key, decode_signature, encode_public_key, encode_secret_key,
    encode_signature, public_key_bytes_ok, secret_key_bytes_ok, signature_bytes_ok,
};
pub use engine::{derived_public_key, generate, sign, signature_valid, signed_bytes, verify_signature};
pub use keys::{KeyPair, PublicKey, SecretKey, Signature};
pub use orchestrator::{
    generate_operation, parse_operation, public_key_resource_name, sign_operation,
    verify_operation, Operation,
};

verus! {

/// The error taxonomy shared by the codec, the key store, the signature
/// engine, and the orchestrator.
#[derive(Clone, Copy, Debug, PartialEq, Eq, Structural)]
pub enum SigError {
    /// A named byte resource is missing or unreadable.
    ResourceNotFound,
    /// A write to a byte resource could not complete.
    PersistenceFailure,
    /// A byte sequence has the wrong length, or is not a valid encoding of a
    /// scheme element.
    MalformedEncoding,
    /// Decodable bytes that do not form a valid scheme element.
    InvalidKeyMaterial,
    /// The operating system's random source failed.
    EntropyUnavailable,
    /// An unrecognized operation name.
    UnsupportedOperation,
}

/// A fresh byte vector holding exactly the bytes of `v`.
pub fn copy_bytes(v: &Vec<u8>) -> (r: Vec<u8>)
    ensures
        r@ == v@,
{
    let mut r: Vec<u8> = Vec::new();
    let mut i: usize = 0;
    while i < v.len()
        invariant
            i <= v@.len(),
            r@ == v@.subrange(0, i as int),
        decreases v@.len() - i,
    {
        r.push(v[i]);
        i += 1;
        proof {
            assert(r@ =~= v@.subrange(0, i as int));
        }
    }
    proof {
        assert(v@.subrange(0, v@.len() as int) =~= v@);
    }
    r
}

/// Byte-for-byte equality of two byte vectors.
pub fn bytes_eq(a: &Vec<u8>, b: &Vec<u8>) -> (r: bool)
    ensures
        r == (a@ == b@),
{
    if a.len() != b.len() {
        return false;
    }
    let mut i: usize = 0;
    while i < a.len()
        invariant
            i <= a@.len(),
            a@.len() == b@.len(),
            forall|j: int| 0 <= j < i ==> a@[j] == b@[j],
        decreases a@.len() - i,
    {
        if a[i] != b[i] {
            return false;
        }
        i += 1;
    }
    proof {
        assert(a@ =~= b@);
    }
    true
}

} // verus!

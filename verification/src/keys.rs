use crate::codec::{public_key_bytes_ok, secret_key_bytes_ok, signature_bytes_ok};
use crate::engine::derived_public_key;
use vstd::prelude::*;

verus! {

/// A public key, held as its fixed-width 32-byte encoding.
#[derive(Debug)]
pub struct PublicKey {
    pub bytes: Vec<u8>,
}

impl View for PublicKey {
    type V = Seq<u8>;

    open spec fn view(&self) -> Seq<u8> {
        self.bytes@
    }
}

impl PublicKey {
    /// Well-formed: exactly 32 bytes that decode to a point of the scheme.
    pub open spec fn wf(&self) -> bool {
        public_key_bytes_ok(self@)
    }
}

/// A secret key, held as its fixed-width 32-byte encoding.  Every 32-byte
/// sequence is a valid secret key.
#[derive(Debug)]
pub struct SecretKey {
    pub bytes: Vec<u8>,
}

impl View for SecretKey {
    type V = Seq<u8>;

    open spec fn view(&self) -> Seq<u8> {
        self.bytes@
    }
}

impl SecretKey {
    /// Well-formed: exactly 32 bytes.
    pub open spec fn wf(&self) -> bool {
        secret_key_bytes_ok(self@)
    }
}

/// A signature, held as its fixed-width 64-byte encoding.
#[derive(Debug)]
pub struct Signature {
    pub bytes: Vec<u8>,
}

impl View for Signature {
    type V = Seq<u8>;

    open spec fn view(&self) -> Seq<u8> {
        self.bytes@
    }
}

impl Signature {
    /// Well-formed: exactly 64 bytes whose scalar half passes the encoding
    /// check of the scheme.
    pub open spec fn wf(&self) -> bool {
        signature_bytes_ok(self@)
    }
}

impl PartialEq for PublicKey {
    fn eq(&self, other: &PublicKey) -> (r: bool) {
        crate::bytes_eq(&self.bytes, &other.bytes)
    }
}

impl vstd::std_specs::cmp::PartialEqSpecImpl for PublicKey {
    open spec fn obeys_eq_spec() -> bool {
        true
    }

    open spec fn eq_spec(&self, other: &PublicKey) -> bool {
        self.bytes@ == other.bytes@
    }
}

impl PartialEq for SecretKey {
    fn eq(&self, other: &SecretKey) -> (r: bool) {
        crate::bytes_eq(&self.bytes, &other.bytes)
    }
}

impl vstd::std_specs::cmp::PartialEqSpecImpl for SecretKey {
    open spec fn obeys_eq_spec() -> bool {
        true
    }

    open spec fn eq_spec(&self, other: &SecretKey) -> bool {
        self.bytes@ == other.bytes@
    }
}

impl PartialEq for Signature {
    fn eq(&self, other: &Signature) -> (r: bool) {
        crate::bytes_eq(&self.bytes, &other.bytes)
    }
}

impl vstd::std_specs::cmp::PartialEqSpecImpl for Signature {
    open spec fn obeys_eq_spec() -> bool {
        true
    }

    open spec fn eq_spec(&self, other: &Signature) -> bool {
        self.bytes@ == other.bytes@
    }
}

/// A secret key together with its public counterpart.
#[derive(Debug)]
pub struct KeyPair {
    pub public: PublicKey,
    pub secret: SecretKey,
}

impl KeyPair {
    /// Well-formed: both halves are well-formed and the public key is the
    /// image of the secret key under the scheme's key derivation.
    pub open spec fn wf(&self) -> bool {
        &&& self.public.wf()
        &&& self.secret.wf()
        &&& self.public@ == derived_public_key(self.secret@)
    }
}

} // verus!

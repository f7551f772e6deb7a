use crate::codec::{public_key_bytes_ok, signature_bytes_ok};
use crate::keys::{KeyPair, PublicKey, SecretKey, Signature};
use crate::SigError;
use vstd::prelude::*;

verus! {

/// The public key that the scheme's key derivation assigns to a 32-byte
/// secret key.  Names the result of `ed25519_dalek::PublicKey::from`, which
/// is a deterministic function of the secret key bytes alone.
pub uninterp spec fn derived_public_key(secret: Seq<u8>) -> Seq<u8>;

/// The signature that the scheme produces for a secret key, a public key and
/// a message.  Names the result of `ed25519_dalek::Keypair::sign`, which is
/// deterministic: it depends on the three byte sequences alone.
pub uninterp spec fn signed_bytes(secret: Seq<u8>, public: Seq<u8>, message: Seq<u8>) -> Seq<u8>;

/// Whether a signature is accepted for a message under a public key.  Names
/// the result of `ed25519_dalek::PublicKey::verify`, a deterministic
/// predicate of the three byte sequences.
pub uninterp spec fn signature_valid(public: Seq<u8>, message: Seq<u8>, signature: Seq<u8>) -> bool;

/// Whether 32 bytes decode to a point of the scheme.  Names the validity
/// check of `ed25519_dalek::PublicKey::from_bytes`: on 32 bytes it succeeds
/// exactly when point decompression succeeds, a function of the bytes alone.
pub uninterp spec fn point_decodes(bytes: Seq<u8>) -> bool;

/// Relies on `rand::rngs::OsRng::try_fill_bytes`: fills the buffer from the
/// operating system's random source, or reports that the source failed.
/// Nothing is promised of the bytes themselves.
#[verifier::external_body]
fn os_random_bytes_32() -> (r: Option<Vec<u8>>)
    ensures
        r is Some ==> r->0@.len() == 32,
{
    let mut buf = [0u8; 32];
    match rand::RngCore::try_fill_bytes(&mut rand::rngs::OsRng, &mut buf) {
        Ok(()) => Some(buf.to_vec()),
        Err(_) => None,
    }
}

/// Relies on `ed25519_dalek::PublicKey::from` (on a `SecretKey`): derives the
/// public key deterministically from the secret key bytes.  The derived key
/// is stored as the compression of a curve point, so decoding it again
/// succeeds.
#[verifier::external_body]
pub(crate) fn derive_public(secret: &Vec<u8>) -> (r: Vec<u8>)
    requires
        secret@.len() == 32,
    ensures
        r@ == derived_public_key(secret@),
        r@.len() == 32,
        point_decodes(r@),
{
    let sk = ed25519_dalek::SecretKey::from_bytes(secret.as_slice()).unwrap();
    let pk = ed25519_dalek::PublicKey::from(&sk);
    pk.to_bytes().to_vec()
}

/// Relies on `ed25519_dalek::Keypair::sign`: produces the scheme's
/// deterministic signature over the message.  Its scalar half is reduced, so
/// the result passes the signature encoding check; and, as the scheme
/// promises, a signature made with a matching key pair is accepted by
/// `ed25519_dalek::PublicKey::verify` for exactly that message.
#[verifier::external_body]
fn dalek_sign(secret: &Vec<u8>, public: &Vec<u8>, message: &Vec<u8>) -> (r: Vec<u8>)
    requires
        secret@.len() == 32,
        public_key_bytes_ok(public@),
    ensures
        r@ == signed_bytes(secret@, public@, message@),
        signature_bytes_ok(r@),
        public@ == derived_public_key(secret@) ==> signature_valid(public@, message@, r@),
{
    let secret_key = ed25519_dalek::SecretKey::from_bytes(secret.as_slice()).unwrap();
    let public_key = ed25519_dalek::PublicKey::from_bytes(public.as_slice()).unwrap();
    let keypair = ed25519_dalek::Keypair { secret: secret_key, public: public_key };
    let signature = ed25519_dalek::Signer::sign(&keypair, message.as_slice());
    signature.to_bytes().to_vec()
}

/// Relies on `ed25519_dalek::PublicKey::verify`: accepts exactly the valid
/// signatures over the message under this public key, and reports a mismatch
/// as an error value, never a panic.
#[verifier::external_body]
fn dalek_verify(public: &Vec<u8>, message: &Vec<u8>, signature: &Vec<u8>) -> (r: bool)
    requires
        public_key_bytes_ok(public@),
        signature_bytes_ok(signature@),
    ensures
        r == signature_valid(public@, message@, signature@),
{
    let public_key = ed25519_dalek::PublicKey::from_bytes(public.as_slice()).unwrap();
    let signature = ed25519_dalek::Signature::from_bytes(signature.as_slice()).unwrap();
    ed25519_dalek::Verifier::verify(&public_key, message.as_slice(), &signature).is_ok()
}

/// Relies on `ed25519_dalek::PublicKey::from_bytes`: succeeds exactly when
/// the input is 32 bytes long and decodes to a point of the scheme.
#[verifier::external_body]
pub(crate) fn check_public_key_bytes(bytes: &Vec<u8>) -> (r: bool)
    ensures
        r == (bytes@.len() == 32 && point_decodes(bytes@)),
{
    ed25519_dalek::PublicKey::from_bytes(bytes.as_slice()).is_ok()
}

/// Draws a fresh secret key from the operating system's random source and
/// derives its public counterpart.  Fails only when the random source does.
pub fn generate() -> (r: Result<KeyPair, SigError>)
    ensures
        r is Ok ==> r->Ok_0.wf(),
        r is Err ==> r->Err_0 == SigError::EntropyUnavailable,
{
    match os_random_bytes_32() {
        None => Err(SigError::EntropyUnavailable),
        Some(secret_bytes) => {
            let public_bytes = derive_public(&secret_bytes);
            Ok(KeyPair { public: PublicKey { bytes: public_bytes }, secret: SecretKey { bytes: secret_bytes } })
        },
    }
}

/// Signs `message` with `secret`, binding `public` into the computation as
/// the scheme prescribes.  A mismatched pair is not rejected here: it
/// silently yields a signature that verification then refuses.  When
/// `public` is the key derived from `secret`, the result verifies for
/// exactly this message: together with `verify_signature`, this clause is
/// the scheme's round trip, sign-then-verify.
pub fn sign(secret: &SecretKey, public: &PublicKey, message: &Vec<u8>) -> (r: Signature)
    requires
        secret.wf(),
        public.wf(),
    ensures
        r@ == signed_bytes(secret@, public@, message@),
        r.wf(),
        public@ == derived_public_key(secret@) ==> signature_valid(public@, message@, r@),
{
    let bytes = dalek_sign(&secret.bytes, &public.bytes, message);
    Signature { bytes }
}

/// True exactly when `signature` is a valid signature over `message` under
/// `public`.  A mismatch is reported as `false`, never as an error.
pub fn verify_signature(public: &PublicKey, message: &Vec<u8>, signature: &Signature) -> (r: bool)
    requires
        public.wf(),
        signature.wf(),
    ensures
        r == signature_valid(public@, message@, signature@),
{
    dalek_verify(&public.bytes, message, &signature.bytes)
}

} // verus!

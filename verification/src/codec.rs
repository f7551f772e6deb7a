use crate::engine::point_decodes;
use crate::keys::{PublicKey, SecretKey, Signature};
use crate::{copy_bytes, SigError};
use vstd::prelude::*;

verus! {

/// The fixed width of an encoded public key.
pub const PUBLIC_KEY_WIDTH: usize = 32;

/// The fixed width of an encoded secret key.
pub const SECRET_KEY_WIDTH: usize = 32;

/// The fixed width of an encoded signature.
pub const SIGNATURE_WIDTH: usize = 64;

/// A byte sequence is an encoding of a public key: fixed width, and it
/// decodes to a point of the scheme.
pub open spec fn public_key_bytes_ok(b: Seq<u8>) -> bool {
    b.len() == PUBLIC_KEY_WIDTH && point_decodes(b)
}

/// A byte sequence is an encoding of a secret key: fixed width; every such
/// sequence is a valid secret key.
pub open spec fn secret_key_bytes_ok(b: Seq<u8>) -> bool {
    b.len() == SECRET_KEY_WIDTH
}

/// A byte sequence is an encoding of a signature: fixed width, and the top
/// three bits of its scalar half are clear, the scheme's check that the
/// scalar is in reduced form.
pub open spec fn signature_bytes_ok(b: Seq<u8>) -> bool {
    b.len() == SIGNATURE_WIDTH && (b[63] & 0xE0) == 0
}

/// What decoding a public key returns: the bytes themselves on a
/// well-formed encoding, `MalformedEncoding` on anything else.
pub open spec fn spec_decode_public_key(b: Seq<u8>) -> Result<Seq<u8>, SigError> {
    if public_key_bytes_ok(b) {
        Ok(b)
    } else {
        Err(SigError::MalformedEncoding)
    }
}

/// What decoding a secret key returns: the bytes themselves on a
/// fixed-width input, `MalformedEncoding` on anything else.
pub open spec fn spec_decode_secret_key(b: Seq<u8>) -> Result<Seq<u8>, SigError> {
    if secret_key_bytes_ok(b) {
        Ok(b)
    } else {
        Err(SigError::MalformedEncoding)
    }
}

/// What decoding a signature returns: the bytes themselves on a
/// well-formed encoding, `MalformedEncoding` on anything else.
pub open spec fn spec_decode_signature(b: Seq<u8>) -> Result<Seq<u8>, SigError> {
    if signature_bytes_ok(b) {
        Ok(b)
    } else {
        Err(SigError::MalformedEncoding)
    }
}

/// The fixed-width encoding of a public key.
pub fn encode_public_key(pk: &PublicKey) -> (r: Vec<u8>)
    ensures
        r@ == pk@,
{
    copy_bytes(&pk.bytes)
}

/// The fixed-width encoding of a secret key.
pub fn encode_secret_key(sk: &SecretKey) -> (r: Vec<u8>)
    ensures
        r@ == sk@,
{
    copy_bytes(&sk.bytes)
}

/// The fixed-width encoding of a signature.
pub fn encode_signature(sig: &Signature) -> (r: Vec<u8>)
    ensures
        r@ == sig@,
{
    copy_bytes(&sig.bytes)
}

/// Decodes a public key.  All-or-nothing: it returns exactly what
/// `spec_decode_public_key` says, a key holding the input bytes or
/// `MalformedEncoding`.
pub fn decode_public_key(bytes: &Vec<u8>) -> (r: Result<PublicKey, SigError>)
    ensures
        r is Ok <==> spec_decode_public_key(bytes@) is Ok,
        r is Ok ==> (r->Ok_0)@ == spec_decode_public_key(bytes@)->Ok_0 && (r->Ok_0).wf(),
        r is Err ==> r->Err_0 == spec_decode_public_key(bytes@)->Err_0,
{
    if bytes.len() != PUBLIC_KEY_WIDTH {
        return Err(SigError::MalformedEncoding);
    }
    if !crate::engine::check_public_key_bytes(bytes) {
        return Err(SigError::MalformedEncoding);
    }
    Ok(PublicKey { bytes: copy_bytes(bytes) })
}

/// Decodes a secret key.  All-or-nothing: it returns exactly what
/// `spec_decode_secret_key` says, a key holding the input bytes or
/// `MalformedEncoding`.
pub fn decode_secret_key(bytes: &Vec<u8>) -> (r: Result<SecretKey, SigError>)
    ensures
        r is Ok <==> spec_decode_secret_key(bytes@) is Ok,
        r is Ok ==> (r->Ok_0)@ == spec_decode_secret_key(bytes@)->Ok_0 && (r->Ok_0).wf(),
        r is Err ==> r->Err_0 == spec_decode_secret_key(bytes@)->Err_0,
{
    if bytes.len() != SECRET_KEY_WIDTH {
        return Err(SigError::MalformedEncoding);
    }
    Ok(SecretKey { bytes: copy_bytes(bytes) })
}

/// Decodes a signature.  All-or-nothing: it returns exactly what
/// `spec_decode_signature` says, a signature holding the input bytes or
/// `MalformedEncoding`.
pub fn decode_signature(bytes: &Vec<u8>) -> (r: Result<Signature, SigError>)
    ensures
        r is Ok <==> spec_decode_signature(bytes@) is Ok,
        r is Ok ==> (r->Ok_0)@ == spec_decode_signature(bytes@)->Ok_0 && (r->Ok_0).wf(),
        r is Err ==> r->Err_0 == spec_decode_signature(bytes@)->Err_0,
{
    if bytes.len() != SIGNATURE_WIDTH {
        return Err(SigError::MalformedEncoding);
    }
    if bytes[63] & 0xE0 != 0 {
        return Err(SigError::MalformedEncoding);
    }
    Ok(Signature { bytes: copy_bytes(bytes) })
}

/// Law: the codec round-trips a well-formed public key.  `encode_public_key`
/// returns exactly the key's bytes, and decoding them succeeds and yields
/// exactly those bytes again.
pub proof fn lemma_public_key_round_trip(pk: PublicKey)
    requires
        pk.wf(),
    ensures
        spec_decode_public_key(pk@) == Ok::<Seq<u8>, SigError>(pk@),
{
}

/// Law: the codec round-trips a well-formed secret key.  `encode_secret_key`
/// returns exactly the key's bytes, and decoding them succeeds and yields
/// exactly those bytes again.
pub proof fn lemma_secret_key_round_trip(sk: SecretKey)
    requires
        sk.wf(),
    ensures
        spec_decode_secret_key(sk@) == Ok::<Seq<u8>, SigError>(sk@),
{
}

/// Law: the codec round-trips a well-formed signature.  `encode_signature`
/// returns exactly the signature's bytes, and decoding them succeeds and
/// yields exactly those bytes again.
pub proof fn lemma_signature_round_trip(sig: Signature)
    requires
        sig.wf(),
    ensures
        spec_decode_signature(sig@) == Ok::<Seq<u8>, SigError>(sig@),
{
}

/// Law: a byte sequence whose length is not the fixed width of a field is
/// always rejected by that field's decoder with `MalformedEncoding`.
pub proof fn lemma_wrong_length_rejected(b: Seq<u8>)
    ensures
        b.len() != PUBLIC_KEY_WIDTH ==> spec_decode_public_key(b) == Err::<Seq<u8>, SigError>(
            SigError::MalformedEncoding,
        ),
        b.len() != SECRET_KEY_WIDTH ==> spec_decode_secret_key(b) == Err::<Seq<u8>, SigError>(
            SigError::MalformedEncoding,
        ),
        b.len() != SIGNATURE_WIDTH ==> spec_decode_signature(b) == Err::<Seq<u8>, SigError>(
            SigError::MalformedEncoding,
        ),
{
}

} // verus!

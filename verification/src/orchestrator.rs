use crate::codec::{
    decode_public_key, decode_secret_key, decode_signature, encode_public_key, encode_secret_key,
    encode_signature, public_key_bytes_ok, secret_key_bytes_ok, signature_bytes_ok,
};
use crate::engine::{derived_public_key, generate, sign, signature_valid, signed_bytes, verify_signature};
use crate::{copy_bytes, SigError};
use vstd::prelude::*;

verus! {

/// The three operations the orchestrator performs.
#[derive(Clone, Copy, Debug, PartialEq, Eq, Structural)]
pub enum Operation {
    Generate,
    Sign,
    Verify,
}

/// Maps an operation name to the operation it selects; any other name is
/// rejected with `UnsupportedOperation`.
pub fn parse_operation(name: &String) -> (r: Result<Operation, SigError>)
    ensures
        name@ == "generate"@ ==> r == Ok::<Operation, SigError>(Operation::Generate),
        name@ == "sign"@ ==> r == Ok::<Operation, SigError>(Operation::Sign),
        name@ == "verify"@ ==> r == Ok::<Operation, SigError>(Operation::Verify),
        name@ != "generate"@ && name@ != "sign"@ && name@ != "verify"@ ==> r == Err::<
            Operation,
            SigError,
        >(SigError::UnsupportedOperation),
{
    proof {
        reveal_strlit("generate");
        reveal_strlit("sign");
        reveal_strlit("verify");
        assert("generate"@.len() == 8);
        assert("sign"@.len() == 4);
        assert("verify"@.len() == 6);
    }
    let generate_name: String = "generate".to_owned();
    if *name == generate_name {
        return Ok(Operation::Generate);
    }
    let sign_name: String = "sign".to_owned();
    if *name == sign_name {
        return Ok(Operation::Sign);
    }
    let verify_name: String = "verify".to_owned();
    if *name == verify_name {
        return Ok(Operation::Verify);
    }
    Err(SigError::UnsupportedOperation)
}

/// The suffix that marks the public half of a key pair's two resources.
pub open spec fn public_suffix() -> Seq<u8> {
    seq![46u8, 112u8, 117u8, 98u8]
}

/// The name of the resource holding the public key of the pair named by
/// `identifier`: the identifier with the fixed `.pub` marker appended.
pub fn public_key_resource_name(identifier: &Vec<u8>) -> (r: Vec<u8>)
    ensures
        r@ == identifier@ + public_suffix(),
{
    let mut r = copy_bytes(identifier);
    r.push(46u8);
    r.push(112u8);
    r.push(117u8);
    r.push(98u8);
    proof {
        assert(r@ =~= identifier@ + public_suffix());
    }
    r
}

/// The generate operation: draws a fresh key pair and returns the byte
/// contents of the two resources to persist, the secret key's and the public
/// key's.  Fails only when the random source does.
pub fn generate_operation() -> (r: Result<(Vec<u8>, Vec<u8>), SigError>)
    ensures
        r is Ok ==> ({
            &&& secret_key_bytes_ok((r->Ok_0).0@)
            &&& public_key_bytes_ok((r->Ok_0).1@)
            &&& (r->Ok_0).1@ == derived_public_key((r->Ok_0).0@)
        }),
        r is Err ==> r->Err_0 == SigError::EntropyUnavailable,
{
    match generate() {
        Err(e) => Err(e),
        Ok(pair) => {
            let secret_bytes = encode_secret_key(&pair.secret);
            let public_bytes = encode_public_key(&pair.public);
            Ok((secret_bytes, public_bytes))
        },
    }
}

/// The sign operation: given the contents of the secret-key, public-key and
/// message resources (`None` where a resource is missing or unreadable, in
/// the order the resources are read), decodes the keys, signs the message,
/// and returns the byte contents of the signature resource to persist.
pub fn sign_operation(
    secret_resource: Option<Vec<u8>>,
    public_resource: Option<Vec<u8>>,
    message_resource: Option<Vec<u8>>,
) -> (r: Result<Vec<u8>, SigError>)
    ensures
        secret_resource is None ==> r == Err::<Vec<u8>, SigError>(SigError::ResourceNotFound),
        secret_resource is Some && public_resource is None ==> r == Err::<Vec<u8>, SigError>(
            SigError::ResourceNotFound,
        ),
        secret_resource is Some && public_resource is Some && message_resource is None ==> r
            == Err::<Vec<u8>, SigError>(SigError::ResourceNotFound),
        secret_resource is Some && public_resource is Some && message_resource is Some
            && !secret_key_bytes_ok((secret_resource->0)@) ==> r == Err::<Vec<u8>, SigError>(
            SigError::MalformedEncoding,
        ),
        secret_resource is Some && public_resource is Some && message_resource is Some
            && secret_key_bytes_ok((secret_resource->0)@) && !public_key_bytes_ok(
            (public_resource->0)@,
        ) ==> r == Err::<Vec<u8>, SigError>(SigError::MalformedEncoding),
        secret_resource is Some && public_resource is Some && message_resource is Some
            && secret_key_bytes_ok((secret_resource->0)@) && public_key_bytes_ok(
            (public_resource->0)@,
        ) ==> ({
            &&& r is Ok
            &&& (r->Ok_0)@ == signed_bytes(
                (secret_resource->0)@,
                (public_resource->0)@,
                (message_resource->0)@,
            )
            &&& signature_bytes_ok((r->Ok_0)@)
            &&& (public_resource->0)@ == derived_public_key((secret_resource->0)@)
                ==> signature_valid(
                (public_resource->0)@,
                (message_resource->0)@,
                (r->Ok_0)@,
            )
        }),
{
    let secret_bytes = match secret_resource {
        Some(b) => b,
        None => { return Err(SigError::ResourceNotFound); },
    };
    let public_bytes = match public_resource {
        Some(b) => b,
        None => { return Err(SigError::ResourceNotFound); },
    };
    let message = match message_resource {
        Some(b) => b,
        None => { return Err(SigError::ResourceNotFound); },
    };
    let secret = match decode_secret_key(&secret_bytes) {
        Ok(k) => k,
        Err(e) => { return Err(e); },
    };
    let public = match decode_public_key(&public_bytes) {
        Ok(k) => k,
        Err(e) => { return Err(e); },
    };
    let signature = sign(&secret, &public, &message);
    Ok(encode_signature(&signature))
}

/// The verify operation: given the contents of the message, public-key and
/// signature resources (`None` where a resource is missing or unreadable, in
/// the order the resources are read), decodes the key and the signature and
/// reports whether the signature is valid for the message.  The negative
/// outcome is the `Ok(false)` result, not an error.
pub fn verify_operation(
    message_resource: Option<Vec<u8>>,
    public_resource: Option<Vec<u8>>,
    signature_resource: Option<Vec<u8>>,
) -> (r: Result<bool, SigError>)
    ensures
        message_resource is None ==> r == Err::<bool, SigError>(SigError::ResourceNotFound),
        message_resource is Some && public_resource is None ==> r == Err::<bool, SigError>(
            SigError::ResourceNotFound,
        ),
        message_resource is Some && public_resource is Some && signature_resource is None ==> r
            == Err::<bool, SigError>(SigError::ResourceNotFound),
        message_resource is Some && public_resource is Some && signature_resource is Some
            && !public_key_bytes_ok((public_resource->0)@) ==> r == Err::<bool, SigError>(
            SigError::MalformedEncoding,
        ),
        message_resource is Some && public_resource is Some && signature_resource is Some
            && public_key_bytes_ok((public_resource->0)@) && !signature_bytes_ok(
            (signature_resource->0)@,
        ) ==> r == Err::<bool, SigError>(SigError::MalformedEncoding),
        message_resource is Some && public_resource is Some && signature_resource is Some
            && public_key_bytes_ok((public_resource->0)@) && signature_bytes_ok(
            (signature_resource->0)@,
        ) ==> r == Ok::<bool, SigError>(
            signature_valid(
                (public_resource->0)@,
                (message_resource->0)@,
                (signature_resource->0)@,
            ),
        ),
{
    let message = match message_resource {
        Some(b) => b,
        None => { return Err(SigError::ResourceNotFound); },
    };
    let public_bytes = match public_resource {
        Some(b) => b,
        None => { return Err(SigError::ResourceNotFound); },
    };
    let signature_bytes = match signature_resource {
        Some(b) => b,
        None => { return Err(SigError::ResourceNotFound); },
    };
    let public = match decode_public_key(&public_bytes) {
        Ok(k) => k,
        Err(e) => { return Err(e); },
    };
    let signature = match decode_signature(&signature_bytes) {
        Ok(s) => s,
        Err(e) => { return Err(e); },
    };
    Ok(verify_signature(&public, &message, &signature))
}

} // verus!

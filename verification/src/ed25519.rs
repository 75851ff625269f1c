//! Trusted surface of the Ed25519 primitive: names for the deterministic
//! derivation, signing and verification results, and the wrappers that
//! carry the calls into `ed25519_dalek`.

use ed25519_dalek::Signer;
use ed25519_dalek::Verifier;
use vstd::prelude::*;

verus! {

/// The 32 bytes of the verifying key that Ed25519 derives from a 32-byte
/// secret key; the derivation is deterministic, so the result is a
/// function of the secret key alone.
pub uninterp spec fn ed25519_public_of(secret: Seq<u8>) -> Seq<u8>;

/// The 64 bytes of the Ed25519 signature over a message under a 32-byte
/// secret key; Ed25519 signing is deterministic, so the result is a
/// function of the key and the message alone.
pub uninterp spec fn ed25519_signature_of(secret: Seq<u8>, message: Seq<u8>) -> Seq<u8>;

/// Whether Ed25519 verification accepts the signature bytes for the
/// message under the public-key bytes.
pub uninterp spec fn ed25519_verifies(
    public: Seq<u8>,
    message: Seq<u8>,
    signature: Seq<u8>,
) -> bool;

/// Relies on `ed25519_dalek::SigningKey::verifying_key`, with
/// `SigningKey::from_bytes` and `VerifyingKey::to_bytes` framing the
/// keys: the deterministic public-key derivation, 32 bytes long.
#[verifier::external_body]
pub(crate) fn derive_public(secret: &Vec<u8>) -> (r: Vec<u8>)
    requires
        secret@.len() == 32,
    ensures
        r@ == ed25519_public_of(secret@),
        r@.len() == 32,
{
    let bytes: [u8; 32] = secret.as_slice().try_into().unwrap();
    let key = ed25519_dalek::SigningKey::from_bytes(&bytes);
    key.verifying_key().to_bytes().to_vec()
}

/// Relies on `Signer::sign` for `ed25519_dalek::SigningKey`, with
/// `SigningKey::from_bytes` and `Signature::to_bytes` framing key and
/// signature: the deterministic Ed25519 signature, 64 bytes long.
#[verifier::external_body]
pub(crate) fn sign_bytes(secret: &Vec<u8>, message: &Vec<u8>) -> (r: Vec<u8>)
    requires
        secret@.len() == 32,
    ensures
        r@ == ed25519_signature_of(secret@, message@),
        r@.len() == 64,
{
    let bytes: [u8; 32] = secret.as_slice().try_into().unwrap();
    let key = ed25519_dalek::SigningKey::from_bytes(&bytes);
    key.sign(message.as_slice()).to_bytes().to_vec()
}

/// Relies on `Verifier::verify` for `ed25519_dalek::VerifyingKey`, with
/// `VerifyingKey::from_bytes` and `Signature::from_bytes` framing the
/// inputs: acceptance is a function of the three byte strings, malformed
/// public keys or signature lengths are rejected, and a signature that
/// `sign_bytes` produced under the matching secret key is accepted.
#[verifier::external_body]
pub(crate) fn verify_bytes(public: &Vec<u8>, message: &Vec<u8>, signature: &Vec<u8>) -> (r: bool)
    ensures
        r == ed25519_verifies(public@, message@, signature@),
        forall|sk: Seq<u8>|
            sk.len() == 32 && public@ == #[trigger] ed25519_public_of(sk) && signature@
                == ed25519_signature_of(sk, message@) ==> r,
{
    let pk: [u8; 32] = match public.as_slice().try_into() {
        Ok(b) => b,
        Err(_) => return false,
    };
    let sig: [u8; 64] = match signature.as_slice().try_into() {
        Ok(b) => b,
        Err(_) => return false,
    };
    let key = match ed25519_dalek::VerifyingKey::from_bytes(&pk) {
        Ok(k) => k,
        Err(_) => return false,
    };
    key.verify(message.as_slice(), &ed25519_dalek::Signature::from_bytes(&sig)).is_ok()
}

} // verus!

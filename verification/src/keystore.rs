//! Key lifecycle: the device identity, its reconstruction from stored
//! config fields, fresh generation from a secure random source, and the
//! rendering of the durable fields back out for storage.

use crate::ed25519::derive_public;
use crate::ed25519::ed25519_public_of;
use rand::RngCore;
use vstd::prelude::*;

verus! {

/// The device signing identity: a 32-byte Ed25519 secret key, the public
/// key re-derived from it, and the hardware tag that goes into every
/// signed message.
#[derive(Debug)]
pub struct SMCU {
    pub secret_key: Vec<u8>,
    pub public_key: Vec<u8>,
    pub hardware_id: Vec<u8>,
}

impl SMCU {
    /// The secret key is exactly 32 bytes and the public key is its
    /// Ed25519 derivation; the public key is never independently trusted.
    pub open spec fn wf(self) -> bool {
        &&& self.secret_key@.len() == 32
        &&& self.public_key@ == ed25519_public_of(self.secret_key@)
    }
}

/// The stored secret-key field was not base58 text that decodes to
/// exactly 32 bytes.
#[derive(Debug, Clone, Copy, PartialEq, Eq, Structural)]
pub struct ConfigParseError;

/// The base58 text, as ASCII bytes in the Bitcoin alphabet, that `bs58`
/// produces for a byte string; a function of the bytes alone.
pub uninterp spec fn base58_of(bytes: Seq<u8>) -> Seq<u8>;

/// Relies on `bs58::encode(..).into_vec()`: the base58 text of the bytes.
#[verifier::external_body]
fn base58_encode(bytes: &Vec<u8>) -> (r: Vec<u8>)
    ensures
        r@ == base58_of(bytes@),
{
    bs58::encode(bytes.as_slice()).into_vec()
}

#[verifier::external_type_specification]
#[verifier::external_body]
pub struct ExBs58DecodeError(bs58::decode::Error);

/// Relies on `bs58::decode(..).into_vec()`: decoding inverts the
/// encoding, as the crate documents, so the base58 text of a byte string
/// decodes back to exactly that byte string.
#[verifier::external_body]
fn base58_decode(text: &Vec<u8>) -> (r: Result<Vec<u8>, bs58::decode::Error>)
    ensures
        forall|b: Seq<u8>|
            text@ == #[trigger] base58_of(b) ==> r is Ok && r->Ok_0@ == b,
{
    bs58::decode(text.as_slice()).into_vec()
}

/// Relies on `RngCore::fill_bytes` for `rand::rngs::OsRng`: 32 bytes from
/// the operating system's secure source; nothing is promised of their
/// values.
#[verifier::external_body]
fn random_bytes_32() -> (r: Vec<u8>)
    ensures
        r@.len() == 32,
{
    let mut bytes = [0u8; 32];
    rand::rngs::OsRng.fill_bytes(&mut bytes);
    bytes.to_vec()
}

/// Relies on `RngCore::next_u32` for `rand::rngs::OsRng`; nothing is
/// promised of the value.
#[verifier::external_body]
fn random_u32() -> u32 {
    rand::rngs::OsRng.next_u32()
}

/// ASCII decimal digits of `n`, most significant first.
pub open spec fn decimal_digits(n: nat) -> Seq<u8>
    decreases n,
{
    if n < 10 {
        seq![(48 + n) as u8]
    } else {
        decimal_digits(n / 10).push((48 + n % 10) as u8)
    }
}

/// Width of the zero padding that stretches `len` digits to at least
/// eight.
pub open spec fn pad_width(len: nat) -> nat {
    if len >= 8 {
        0
    } else {
        (8 - len) as nat
    }
}

/// The generated hardware tag: `A`, then the decimal rendering of the
/// drawn 32-bit value zero-padded to at least eight digits.
pub open spec fn hardware_tag(tag: u32) -> Seq<u8> {
    seq!['A' as u8] + Seq::new(
        pad_width(decimal_digits(tag as nat).len()),
        |i: int| '0' as u8,
    ) + decimal_digits(tag as nat)
}

/// Append the decimal digits of `n` to `v`.
fn push_decimal(v: &mut Vec<u8>, n: u32)
    ensures
        final(v)@ == old(v)@ + decimal_digits(n as nat),
    decreases n,
{
    if n < 10 {
        v.push(48 + n as u8);
        proof {
            assert(old(v)@.push((48 + n) as u8) =~= old(v)@ + decimal_digits(n as nat));
        }
    } else {
        push_decimal(v, n / 10);
        v.push(48 + (n % 10) as u8);
        proof {
            assert(old(v)@ + decimal_digits((n / 10) as nat) + seq![(48 + (n as nat) % 10) as u8]
                =~= old(v)@ + decimal_digits(n as nat));
        }
    }
}

/// Render the hardware tag for a drawn 32-bit value.
fn format_hardware_id(tag: u32) -> (r: Vec<u8>)
    ensures
        r@ == hardware_tag(tag),
{
    let mut digits: Vec<u8> = Vec::new();
    push_decimal(&mut digits, tag);
    let mut r: Vec<u8> = Vec::new();
    r.push('A' as u8);
    let width: usize = if digits.len() >= 8 {
        0
    } else {
        8 - digits.len()
    };
    let mut pad: usize = 0;
    proof {
        assert(r@ =~= seq!['A' as u8] + Seq::new(0, |i: int| '0' as u8));
    }
    while pad < width
        invariant
            pad <= width,
            r@ == seq!['A' as u8] + Seq::new(pad as nat, |i: int| '0' as u8),
        decreases width - pad,
    {
        r.push('0' as u8);
        pad += 1;
        proof {
            assert(seq!['A' as u8] + Seq::new((pad - 1) as nat, |i: int| '0' as u8) + seq![
                '0' as u8,
            ] =~= seq!['A' as u8] + Seq::new(pad as nat, |i: int| '0' as u8));
        }
    }
    r.append(&mut digits);
    proof {
        assert(width as nat == pad_width(decimal_digits(tag as nat).len()));
        assert(r@ =~= hardware_tag(tag));
    }
    r
}

/// Build the identity from already-drawn entropy: the given 32-byte
/// secret key, its derived public key, and the hardware tag rendered
/// from the given 32-bit value.
pub fn identity_from_entropy(secret_key: Vec<u8>, tag: u32) -> (r: SMCU)
    requires
        secret_key@.len() == 32,
    ensures
        r.wf(),
        r.secret_key@ == secret_key@,
        r.public_key@ == ed25519_public_of(secret_key@),
        r.hardware_id@ == hardware_tag(tag),
{
    let public_key = derive_public(&secret_key);
    let hardware_id = format_hardware_id(tag);
    SMCU { secret_key, public_key, hardware_id }
}

/// Draw a fresh identity from the secure random source.
pub fn generate() -> (r: SMCU)
    ensures
        r.wf(),
        exists|tag: u32| r.hardware_id@ == hardware_tag(tag),
{
    let secret_key = random_bytes_32();
    let tag = random_u32();
    let id = identity_from_entropy(secret_key, tag);
    proof {
        assert(id.hardware_id@ == hardware_tag(tag));
    }
    id
}

/// Rebuild the identity from the stored config fields: the secret key as
/// base58 text and the hardware tag. The text must decode to exactly 32
/// bytes; the public key is always re-derived, never read from storage.
/// Reloading fields that `config_fields` rendered for a well-formed
/// identity therefore reproduces its secret key, public key and hardware
/// tag exactly.
pub fn identity_from_config(secret_key_b58: &Vec<u8>, hardware_id: Vec<u8>) -> (r: Result<
    SMCU,
    ConfigParseError,
>)
    ensures
        r matches Ok(id) ==> id.wf() && id.hardware_id@ == hardware_id@,
        forall|sk: Seq<u8>|
            secret_key_b58@ == #[trigger] base58_of(sk) ==> if sk.len() == 32 {
                r matches Ok(id) && id.secret_key@ == sk && id.public_key@ == ed25519_public_of(sk)
                    && id.hardware_id@ == hardware_id@
            } else {
                r is Err
            },
{
    let decoded = match base58_decode(secret_key_b58) {
        Ok(v) => v,
        Err(_) => {
            return Err(ConfigParseError);
        },
    };
    if decoded.len() != 32 {
        return Err(ConfigParseError);
    }
    let public_key = derive_public(&decoded);
    Ok(SMCU { secret_key: decoded, public_key, hardware_id })
}

/// Render the durable fields for storage: the secret key as base58 text
/// and the hardware tag, both as ASCII bytes.
pub fn config_fields(identity: &SMCU) -> (r: (Vec<u8>, Vec<u8>))
    ensures
        r.0@ == base58_of(identity.secret_key@),
        r.1@ == identity.hardware_id@,
{
    let secret_key_b58 = base58_encode(&identity.secret_key);
    let mut hardware_id: Vec<u8> = Vec::new();
    crate::push_bytes(&mut hardware_id, &identity.hardware_id);
    proof {
        assert(hardware_id@ =~= identity.hardware_id@);
    }
    (secret_key_b58, hardware_id)
}

/// The public key that Ed25519 derives from a 32-byte secret key.
pub fn derived_public_key(secret_key: &Vec<u8>) -> (r: Vec<u8>)
    requires
        secret_key@.len() == 32,
    ensures
        r@ == ed25519_public_of(secret_key@),
        r@.len() == 32,
{
    derive_public(secret_key)
}

} // verus!

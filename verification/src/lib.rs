//! Packet-metadata signing for LoRa gateways.
//!
//! The crate builds the canonical byte sequence for a received radio
//! packet, signs it with a device identity held as an Ed25519 key pair,
//! and manages that identity's lifecycle: decoding it from stored config
//! fields, generating a fresh one, and rendering the fields back out.

use vstd::prelude::*;

pub mod ed25519;
pub mod keystore;
pub mod loradatarate;
pub mod signer;

verus! {

/// Length in bytes of every signature the crate produces.
pub const SIGNATURE_LENGTH: usize = 64;

/// The four bytes of `x` in big-endian order.
pub open spec fn be32(x: u32) -> Seq<u8> {
    seq![(x >> 24) as u8, (x >> 16) as u8, (x >> 8) as u8, x as u8]
}

/// Append a copy of `src` to `dst`.
pub(crate) fn push_bytes(dst: &mut Vec<u8>, src: &Vec<u8>)
    ensures
        final(dst)@ == old(dst)@ + src@,
{
    let mut i: usize = 0;
    while i < src.len()
        invariant
            i <= src@.len(),
            dst@ == old(dst)@ + src@.subrange(0, i as int),
        decreases src@.len() - i,
    {
        dst.push(src[i]);
        proof {
            assert(old(dst)@ + src@.subrange(0, i as int) + seq![src@[i as int]] =~= old(dst)@
                + src@.subrange(0, i as int + 1));
        }
        i += 1;
    }
    proof {
        assert(src@.subrange(0, src@.len() as int) =~= src@);
    }
}

/// Append `x` to `dst` as an unsigned 32-bit big-endian value.
pub(crate) fn push_be32(dst: &mut Vec<u8>, x: u32)
    ensures
        final(dst)@ == old(dst)@ + be32(x),
{
    dst.push((x >> 24) as u8);
    dst.push((x >> 16) as u8);
    dst.push((x >> 8) as u8);
    dst.push(x as u8);
    proof {
        assert(old(dst)@.push((x >> 24) as u8).push((x >> 16) as u8).push((x >> 8) as u8).push(
            x as u8,
        ) =~= old(dst)@ + be32(x));
    }
}

} // verus!

//! Canonical message construction and signing: the packet record, the
//! exact byte sequence that is signed, and the signing and checking
//! operations over it.

use crate::be32;
use crate::ed25519::ed25519_signature_of;
use crate::ed25519::ed25519_verifies;
use crate::ed25519::sign_bytes;
use crate::ed25519::verify_bytes;
use crate::keystore::SMCU;
use crate::loradatarate::bandwidth_of_code;
use crate::loradatarate::datarate_of_code;
use crate::loradatarate::datr_token;
use crate::loradatarate::valid_bandwidth_code;
use crate::loradatarate::valid_datarate_code;
use crate::loradatarate::CodecError;
use crate::loradatarate::Datr;
use crate::loradatarate::LoraBandwidth;
use crate::loradatarate::LoraDatarate;
use vstd::prelude::*;

verus! {

/// Metadata of one received packet, with the signal metrics already
/// quantized: `rssi_q` is the RSSI rounded to an integer, `snr_q` the
/// SNR rounded at one decimal digit and scaled by ten.
pub struct LoraPacket {
    pub payload: Vec<u8>,
    pub tmstmp: u32,
    pub rssi_q: i32,
    pub snr_q: i32,
    pub freq_hz: u32,
    pub bandwidth: u8,
    pub datarate: u8,
}

impl LoraPacket {
    /// The payload fits the fixed 256-byte receive buffer; anything
    /// larger is caller error.
    pub open spec fn wf(self) -> bool {
        self.payload@.len() <= 256
    }
}

/// The exact byte sequence that is signed, in this order: the raw
/// payload; its length, the timestamp, the quantized RSSI and the
/// quantized SNR, each as a 32-bit big-endian value (the two quantized
/// metrics in two's complement); the ASCII radio-parameter token; the
/// frequency in kHz by truncating division; and the hardware tag. No
/// length prefixes, no terminators. This is the richer of the two wire
/// shapes: the quantized SNR and the hardware tag are always included,
/// and a remote verifier must expect the same shape.
pub open spec fn canonical_message(pkt: LoraPacket, hardware_id: Seq<u8>) -> Seq<u8>
    recommends
        valid_datarate_code(pkt.datarate),
        valid_bandwidth_code(pkt.bandwidth),
{
    pkt.payload@ + be32(pkt.payload@.len() as u32) + be32(pkt.tmstmp) + be32(pkt.rssi_q as u32)
        + be32(pkt.snr_q as u32) + datr_token(
        datarate_of_code(pkt.datarate),
        bandwidth_of_code(pkt.bandwidth),
    ) + be32(pkt.freq_hz / 1000) + hardware_id
}

/// Assemble the canonical byte sequence for a packet, or report the
/// first invalid radio-parameter code: the datarate is decoded first, so
/// an unknown datarate is reported even when the bandwidth is unknown
/// too.
pub fn canonical_message_bytes(pkt: &LoraPacket, hardware_id: &Vec<u8>) -> (r: Result<
    Vec<u8>,
    CodecError,
>)
    requires
        pkt.wf(),
    ensures
        r matches Ok(m) ==> m@ == canonical_message(*pkt, hardware_id@),
        r is Ok <==> valid_datarate_code(pkt.datarate) && valid_bandwidth_code(pkt.bandwidth),
        r == Err::<Vec<u8>, CodecError>(CodecError::UnknownDatarate(pkt.datarate)) <==> !valid_datarate_code(
            pkt.datarate,
        ),
        r == Err::<Vec<u8>, CodecError>(CodecError::UnknownBandwidth(pkt.bandwidth)) <==> (
        valid_datarate_code(pkt.datarate) && !valid_bandwidth_code(pkt.bandwidth)),
{
    let dr: LoraDatarate = match LoraDatarate::try_from(pkt.datarate) {
        Ok(dr) => dr,
        Err(e) => {
            return Err(e);
        },
    };
    let bw: LoraBandwidth = match LoraBandwidth::try_from(pkt.bandwidth) {
        Ok(bw) => bw,
        Err(e) => {
            return Err(e);
        },
    };
    let mut message: Vec<u8> = Vec::new();
    crate::push_bytes(&mut message, &pkt.payload);
    crate::push_be32(&mut message, pkt.payload.len() as u32);
    crate::push_be32(&mut message, pkt.tmstmp);
    crate::push_be32(&mut message, pkt.rssi_q as u32);
    crate::push_be32(&mut message, pkt.snr_q as u32);
    let datr = Datr::new(dr, bw);
    let mut token = datr.token_bytes();
    message.append(&mut token);
    crate::push_be32(&mut message, pkt.freq_hz / 1000);
    crate::push_bytes(&mut message, hardware_id);
    proof {
        assert(message@ =~= canonical_message(*pkt, hardware_id@));
    }
    Ok(message)
}

/// Sign the canonical message for the packet with the identity's secret
/// key. The result is a function of the identity and the packet alone,
/// so identical inputs always yield byte-identical signatures. On an
/// unknown datarate or bandwidth code the whole call aborts with that
/// error and no signature is produced.
pub fn sign(identity: &SMCU, pkt: &LoraPacket) -> (r: Result<Vec<u8>, CodecError>)
    requires
        identity.secret_key@.len() == 32,
        pkt.wf(),
    ensures
        r matches Ok(sig) ==> sig@ == ed25519_signature_of(
            identity.secret_key@,
            canonical_message(*pkt, identity.hardware_id@),
        ) && sig@.len() == 64,
        r is Ok <==> valid_datarate_code(pkt.datarate) && valid_bandwidth_code(pkt.bandwidth),
        r == Err::<Vec<u8>, CodecError>(CodecError::UnknownDatarate(pkt.datarate)) <==> !valid_datarate_code(
            pkt.datarate,
        ),
        r == Err::<Vec<u8>, CodecError>(CodecError::UnknownBandwidth(pkt.bandwidth)) <==> (
        valid_datarate_code(pkt.datarate) && !valid_bandwidth_code(pkt.bandwidth)),
{
    let message = match canonical_message_bytes(pkt, &identity.hardware_id) {
        Ok(m) => m,
        Err(e) => {
            return Err(e);
        },
    };
    Ok(sign_bytes(&identity.secret_key, &message))
}

/// Check a signature against the identity's public key over the
/// canonical message for the packet. Every signature that `sign`
/// produced for the same packet under a well-formed identity is
/// accepted.
pub fn verify_signature(identity: &SMCU, pkt: &LoraPacket, signature: &Vec<u8>) -> (r: Result<
    bool,
    CodecError,
>)
    requires
        pkt.wf(),
    ensures
        r matches Ok(accepted) ==> accepted == ed25519_verifies(
            identity.public_key@,
            canonical_message(*pkt, identity.hardware_id@),
            signature@,
        ),
        r matches Ok(accepted) ==> ((identity.wf() && signature@ == ed25519_signature_of(
            identity.secret_key@,
            canonical_message(*pkt, identity.hardware_id@),
        )) ==> accepted),
        r is Ok <==> valid_datarate_code(pkt.datarate) && valid_bandwidth_code(pkt.bandwidth),
        r == Err::<bool, CodecError>(CodecError::UnknownDatarate(pkt.datarate)) <==> !valid_datarate_code(
            pkt.datarate,
        ),
        r == Err::<bool, CodecError>(CodecError::UnknownBandwidth(pkt.bandwidth)) <==> (
        valid_datarate_code(pkt.datarate) && !valid_bandwidth_code(pkt.bandwidth)),
{
    let message = match canonical_message_bytes(pkt, &identity.hardware_id) {
        Ok(m) => m,
        Err(e) => {
            return Err(e);
        },
    };
    Ok(verify_bytes(&identity.public_key, &message, signature))
}

} // verus!

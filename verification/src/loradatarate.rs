//! Closed vocabularies of the radio physical layer: spreading-factor and
//! bandwidth codes, their fallible decoding from wire bytes, and the
//! canonical ASCII token (for example `SF10BW125`) that feeds the signed
//! message.

use vstd::prelude::*;

verus! {

/// Spreading factors of the closed vocabulary, wire values 5 through 12.
#[derive(Debug, Clone, Copy, PartialEq, Eq, Structural, PartialOrd, Ord)]
pub enum LoraDatarate {
    SF5,
    SF6,
    SF7,
    SF8,
    SF9,
    SF10,
    SF11,
    SF12,
}

/// Bandwidths of the closed vocabulary, wire values 0x04 through 0x06.
#[allow(non_camel_case_types)]
#[derive(Debug, Clone, Copy, PartialEq, Eq, Structural, PartialOrd, Ord)]
pub enum LoraBandwidth {
    BW_125KHZ,
    BW_250KHZ,
    BW_500KHZ,
}

/// A packet carried a code outside the closed vocabulary; there is no
/// default mapping, so the value is carried back to the caller.
#[derive(Debug, Clone, Copy, PartialEq, Eq, Structural)]
pub enum CodecError {
    UnknownDatarate(u8),
    UnknownBandwidth(u8),
}

pub open spec fn valid_datarate_code(n: u8) -> bool {
    5 <= n <= 12
}

pub open spec fn datarate_of_code(n: u8) -> LoraDatarate
    recommends
        valid_datarate_code(n),
{
    if n == 5 {
        LoraDatarate::SF5
    } else if n == 6 {
        LoraDatarate::SF6
    } else if n == 7 {
        LoraDatarate::SF7
    } else if n == 8 {
        LoraDatarate::SF8
    } else if n == 9 {
        LoraDatarate::SF9
    } else if n == 10 {
        LoraDatarate::SF10
    } else if n == 11 {
        LoraDatarate::SF11
    } else {
        LoraDatarate::SF12
    }
}

pub open spec fn valid_bandwidth_code(n: u8) -> bool {
    4 <= n <= 6
}

pub open spec fn bandwidth_of_code(n: u8) -> LoraBandwidth
    recommends
        valid_bandwidth_code(n),
{
    if n == 4 {
        LoraBandwidth::BW_125KHZ
    } else if n == 5 {
        LoraBandwidth::BW_250KHZ
    } else {
        LoraBandwidth::BW_500KHZ
    }
}

impl LoraDatarate {
    /// Decode a wire datarate byte; exactly the values 5 through 12 succeed.
    pub fn try_from(n: u8) -> (r: Result<LoraDatarate, CodecError>)
        ensures
            valid_datarate_code(n) ==> r == Ok::<LoraDatarate, CodecError>(datarate_of_code(n)),
            !valid_datarate_code(n) ==> r == Err::<LoraDatarate, CodecError>(
                CodecError::UnknownDatarate(n),
            ),
    {
        match n {
            5 => Ok(LoraDatarate::SF5),
            6 => Ok(LoraDatarate::SF6),
            7 => Ok(LoraDatarate::SF7),
            8 => Ok(LoraDatarate::SF8),
            9 => Ok(LoraDatarate::SF9),
            10 => Ok(LoraDatarate::SF10),
            11 => Ok(LoraDatarate::SF11),
            12 => Ok(LoraDatarate::SF12),
            _ => Err(CodecError::UnknownDatarate(n)),
        }
    }
}

impl LoraBandwidth {
    /// Decode a wire bandwidth byte; exactly 0x04, 0x05 and 0x06 succeed.
    pub fn try_from(n: u8) -> (r: Result<LoraBandwidth, CodecError>)
        ensures
            valid_bandwidth_code(n) ==> r == Ok::<LoraBandwidth, CodecError>(bandwidth_of_code(n)),
            !valid_bandwidth_code(n) ==> r == Err::<LoraBandwidth, CodecError>(
                CodecError::UnknownBandwidth(n),
            ),
    {
        match n {
            4 => Ok(LoraBandwidth::BW_125KHZ),
            5 => Ok(LoraBandwidth::BW_250KHZ),
            6 => Ok(LoraBandwidth::BW_500KHZ),
            _ => Err(CodecError::UnknownBandwidth(n)),
        }
    }
}

/// ASCII bytes of the datarate name, `SF<n>`.
pub open spec fn sf_token(dr: LoraDatarate) -> Seq<u8> {
    match dr {
        LoraDatarate::SF5 => seq!['S' as u8, 'F' as u8, '5' as u8],
        LoraDatarate::SF6 => seq!['S' as u8, 'F' as u8, '6' as u8],
        LoraDatarate::SF7 => seq!['S' as u8, 'F' as u8, '7' as u8],
        LoraDatarate::SF8 => seq!['S' as u8, 'F' as u8, '8' as u8],
        LoraDatarate::SF9 => seq!['S' as u8, 'F' as u8, '9' as u8],
        LoraDatarate::SF10 => seq!['S' as u8, 'F' as u8, '1' as u8, '0' as u8],
        LoraDatarate::SF11 => seq!['S' as u8, 'F' as u8, '1' as u8, '1' as u8],
        LoraDatarate::SF12 => seq!['S' as u8, 'F' as u8, '1' as u8, '2' as u8],
    }
}

/// ASCII bytes of the bandwidth name, `BW<khz>`.
pub open spec fn bw_token(bw: LoraBandwidth) -> Seq<u8> {
    match bw {
        LoraBandwidth::BW_125KHZ => seq!['B' as u8, 'W' as u8, '1' as u8, '2' as u8, '5' as u8],
        LoraBandwidth::BW_250KHZ => seq!['B' as u8, 'W' as u8, '2' as u8, '5' as u8, '0' as u8],
        LoraBandwidth::BW_500KHZ => seq!['B' as u8, 'W' as u8, '5' as u8, '0' as u8, '0' as u8],
    }
}

/// ASCII bytes of the canonical token: datarate name then bandwidth name,
/// with no separator.
pub open spec fn datr_token(dr: LoraDatarate, bw: LoraBandwidth) -> Seq<u8> {
    sf_token(dr) + bw_token(bw)
}

fn sf_token_bytes(dr: LoraDatarate) -> (r: Vec<u8>)
    ensures
        r@ == sf_token(dr),
{
    match dr {
        LoraDatarate::SF5 => vec!['S' as u8, 'F' as u8, '5' as u8],
        LoraDatarate::SF6 => vec!['S' as u8, 'F' as u8, '6' as u8],
        LoraDatarate::SF7 => vec!['S' as u8, 'F' as u8, '7' as u8],
        LoraDatarate::SF8 => vec!['S' as u8, 'F' as u8, '8' as u8],
        LoraDatarate::SF9 => vec!['S' as u8, 'F' as u8, '9' as u8],
        LoraDatarate::SF10 => vec!['S' as u8, 'F' as u8, '1' as u8, '0' as u8],
        LoraDatarate::SF11 => vec!['S' as u8, 'F' as u8, '1' as u8, '1' as u8],
        LoraDatarate::SF12 => vec!['S' as u8, 'F' as u8, '1' as u8, '2' as u8],
    }
}

fn bw_token_bytes(bw: LoraBandwidth) -> (r: Vec<u8>)
    ensures
        r@ == bw_token(bw),
{
    match bw {
        LoraBandwidth::BW_125KHZ => vec!['B' as u8, 'W' as u8, '1' as u8, '2' as u8, '5' as u8],
        LoraBandwidth::BW_250KHZ => vec!['B' as u8, 'W' as u8, '2' as u8, '5' as u8, '0' as u8],
        LoraBandwidth::BW_500KHZ => vec!['B' as u8, 'W' as u8, '5' as u8, '0' as u8, '0' as u8],
    }
}

proof fn lemma_sf_token_ascii(dr: LoraDatarate)
    ensures
        forall|i: int| 0 <= i < sf_token(dr).len() ==> sf_token(dr)[i] < 128,
{
}

proof fn lemma_bw_token_ascii(bw: LoraBandwidth)
    ensures
        forall|i: int| 0 <= i < bw_token(bw).len() ==> bw_token(bw)[i] < 128,
{
}

proof fn lemma_datr_token_ascii(dr: LoraDatarate, bw: LoraBandwidth)
    ensures
        forall|i: int| 0 <= i < datr_token(dr, bw).len() ==> datr_token(dr, bw)[i] < 128,
{
    lemma_sf_token_ascii(dr);
    lemma_bw_token_ascii(bw);
    assert forall|i: int| 0 <= i < datr_token(dr, bw).len() implies datr_token(dr, bw)[i]
        < 128 by {
        if i < sf_token(dr).len() {
            assert(datr_token(dr, bw)[i] == sf_token(dr)[i]);
        } else {
            assert(datr_token(dr, bw)[i] == bw_token(bw)[i - sf_token(dr).len()]);
        }
    }
}

/// Relies on `String::from_utf8`: bytes below 0x80 decode to one char
/// each, with the same code points.
#[verifier::external_body]
fn ascii_string(bytes: Vec<u8>) -> (r: String)
    requires
        forall|i: int| 0 <= i < bytes@.len() ==> bytes@[i] < 128,
    ensures
        r@.len() == bytes@.len(),
        forall|i: int| 0 <= i < r@.len() ==> r@[i] as u32 == bytes@[i] as u32,
{
    String::from_utf8(bytes).unwrap_or_default()
}

/// A decoded datarate/bandwidth pair, as rendered into the canonical token.
#[derive(Debug, Clone, Copy, PartialEq, Eq, Structural, PartialOrd, Ord)]
pub struct Datr {
    pub datarate: LoraDatarate,
    pub bandwidth: LoraBandwidth,
}

impl Datr {
    pub fn new(dr: LoraDatarate, bw: LoraBandwidth) -> (r: Self)
        ensures
            r == (Datr { datarate: dr, bandwidth: bw }),
    {
        Datr { datarate: dr, bandwidth: bw }
    }

    /// ASCII bytes of the canonical token for this pair.
    pub fn token_bytes(&self) -> (r: Vec<u8>)
        ensures
            r@ == datr_token(self.datarate, self.bandwidth),
    {
        let mut v = sf_token_bytes(self.datarate);
        let mut rest = bw_token_bytes(self.bandwidth);
        v.append(&mut rest);
        v
    }

    /// The canonical token as text, for example `SF10BW125`; its characters
    /// are exactly the code points of `datr_token`.
    pub fn render(&self) -> (r: String)
        ensures
            r@.len() == datr_token(self.datarate, self.bandwidth).len(),
            forall|i: int|
                0 <= i < r@.len() ==> r@[i] as u32 == datr_token(self.datarate, self.bandwidth)[i]
                    as u32,
    {
        let bytes = self.token_bytes();
        proof {
            lemma_datr_token_ascii(self.datarate, self.bandwidth);
        }
        ascii_string(bytes)
    }
}

} // verus!

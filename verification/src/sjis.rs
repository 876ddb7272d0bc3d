//! Encoding adapter: converts one UTF-16 code unit to its Shift-JIS
//! representation through encoding_rs, behind a trusted wrapper.

use vstd::prelude::*;

verus! {

/// Raw outcome of one Unicode-to-Shift-JIS conversion with a two-byte
/// output buffer.
pub enum SjisEncodeOutcome {
    /// The conversion consumed the input: the two buffer bytes and how many
    /// of them the encoder wrote (one byte for a single-byte encoding, two
    /// for a double-byte one).
    Encoded(u8, u8, usize),
    /// The encoder reported that the character has no Shift-JIS encoding.
    Unmappable,
    /// The encoder reported that the output buffer was too small.
    OutputExhausted,
}

/// The 16-bit Shift-JIS code unit assembled from an encoder's output: the
/// single byte itself when only one byte was written, else lead byte times
/// 256 plus trail byte (big-endian).
pub open spec fn sjis_unit(b0: u8, b1: u8, written: usize) -> u16 {
    if written == 1 {
        b0 as u16
    } else {
        (b0 as u16 * 256 + b1 as u16) as u16
    }
}

/// The Shift-JIS code unit that encoding_rs's SHIFT_JIS encoder assigns to
/// a UTF-16 code unit, or None where the encoder reports it unmappable.
pub uninterp spec fn sjis_encoding(code: u16) -> Option<u16>;

/// Relies on encoding_rs's `SHIFT_JIS` and
/// `Encoder::encode_from_utf16_without_replacement`: the Shift-JIS encoder
/// keeps no state between calls, so what it returns for a single code unit
/// depends on that code unit alone. It writes at most two bytes per code
/// unit and consumes one only after checking for two bytes of space, so a
/// fresh two-byte buffer is never reported too small.
#[verifier::external_body]
pub fn encode_utf16_to_shiftjis(code: u16) -> (r: SjisEncodeOutcome)
    ensures
        (r matches SjisEncodeOutcome::Encoded(b0, b1, written) ==> sjis_encoding(code)
            == Some(sjis_unit(b0, b1, written))),
        r is Unmappable ==> sjis_encoding(code) is None,
        !(r is OutputExhausted),
{
    let src = [code];
    let mut dst = [0u8; 2];
    let mut encoder = encoding_rs::SHIFT_JIS.new_encoder();
    let (result, _read, written) =
        encoder.encode_from_utf16_without_replacement(&src, &mut dst, true);
    match result {
        encoding_rs::EncoderResult::InputEmpty => {
            SjisEncodeOutcome::Encoded(dst[0], dst[1], written)
        }
        encoding_rs::EncoderResult::OutputFull => SjisEncodeOutcome::OutputExhausted,
        encoding_rs::EncoderResult::Unmappable(_) => SjisEncodeOutcome::Unmappable,
    }
}

/// Assembles the encoder's raw outcome into the 16-bit Shift-JIS code unit.
pub(crate) fn assemble_sjis_unit(b0: u8, b1: u8, written: usize) -> (code: u16)
    ensures
        code == sjis_unit(b0, b1, written),
{
    if written == 1 {
        b0 as u16
    } else {
        b0 as u16 * 256 + b1 as u16
    }
}

} // verus!

//! The binary frame codec. A sample frame carries one 32-bit word per
//! frequency bin; on the wire a frame is a single binary message of exactly
//! four bytes per bin, each word little-endian. The words are the bit
//! patterns of the host's 32-bit float samples; this crate never interprets
//! them numerically, it only carries them.

use vstd::prelude::*;

verus! {

/// Number of frequency bins in one sample frame.
pub const FRAME_BINS: usize = 2048;

/// Number of bytes in one well-formed binary message: four per bin.
pub const FRAME_BYTES: usize = 8192;

/// Rejection of a frame or message whose size is not the single accepted one.
#[derive(Clone, Copy, Debug, PartialEq, Eq, Structural)]
pub enum FrameError {
    /// The input's length differs from the one fixed frame size.
    WrongLength,
}

/// The little-endian 32-bit word starting at byte `4 * i` of a message.
pub open spec fn word_at(bytes: Seq<u8>, i: int) -> u32 {
    (bytes[4 * i] as u32) | ((bytes[4 * i + 1] as u32) << 8u32) | ((bytes[4 * i + 2] as u32)
        << 16u32) | ((bytes[4 * i + 3] as u32) << 24u32)
}

/// The whole sample frame carried by a well-formed binary message.
pub open spec fn frame_words(bytes: Seq<u8>) -> Seq<u32> {
    Seq::new(FRAME_BINS as nat, |i: int| word_at(bytes, i))
}

/// Whether a binary message has the single accepted size.
pub open spec fn message_well_sized(bytes: Seq<u8>) -> bool {
    bytes.len() == FRAME_BYTES
}

/// Decode one binary message into a sample frame of 32-bit words.
///
/// Exactly the messages of the one accepted size decode; any other length is
/// rejected whole, with nothing decoded — a malformed message is never
/// partially read.
pub fn decode_message(bytes: &Vec<u8>) -> (r: Result<Vec<u32>, FrameError>)
    ensures
        r is Ok <==> message_well_sized(bytes@),
        r is Ok ==> r->Ok_0@ == frame_words(bytes@),
        r is Err ==> r->Err_0 == FrameError::WrongLength,
{
    if bytes.len() != FRAME_BYTES {
        return Err(FrameError::WrongLength);
    }
    let mut words: Vec<u32> = Vec::new();
    let mut i: usize = 0;
    while i < FRAME_BINS
        invariant
            i <= FRAME_BINS,
            bytes@.len() == FRAME_BYTES,
            words@.len() == i,
            forall|t: int| 0 <= t < i ==> words@[t] == word_at(bytes@, t),
        decreases FRAME_BINS - i,
    {
        let b0 = bytes[4 * i];
        let b1 = bytes[4 * i + 1];
        let b2 = bytes[4 * i + 2];
        let b3 = bytes[4 * i + 3];
        let w: u32 = (b0 as u32) | ((b1 as u32) << 8u32) | ((b2 as u32) << 16u32) | ((b3 as u32)
            << 24u32);
        words.push(w);
        i = i + 1;
    }
    assert(words@ =~= frame_words(bytes@));
    Ok(words)
}

/// Check a polled sample frame: exactly the frames with one word per bin are
/// accepted, and accepted frames pass through unchanged.
pub fn check_frame(samples: Vec<u32>) -> (r: Result<Vec<u32>, FrameError>)
    ensures
        r is Ok <==> samples@.len() == FRAME_BINS,
        r is Ok ==> r->Ok_0@ == samples@,
        r is Err ==> r->Err_0 == FrameError::WrongLength,
{
    if samples.len() != FRAME_BINS {
        return Err(FrameError::WrongLength);
    }
    Ok(samples)
}

} // verus!

//! Frames: the length of a packet as a VarInt, then the packet, which is
//! its identifier as a VarInt and its body.

use vstd::prelude::*;
use crate::error::{Error, FramingFault};
use crate::varint::{
    convert_i32_to_varint, convert_varint_to_i32, lemma_decode_encode, lemma_encode_len,
    spec_decode, spec_decode_fault, spec_encode, MAX_VARINT_LEN,
};
use crate::wire::append_bytes;

verus! {

/// One packet: what a frame carries.
#[derive(Debug, Clone, PartialEq, Eq)]
pub struct Packet {
    pub id: i32,
    pub body: Vec<u8>,
}

/// How far the bytes read so far are from one whole frame.
#[derive(Debug, Clone, Copy, PartialEq, Eq, Structural)]
pub enum Progress {
    /// The bytes are exactly one frame.
    Complete,
    /// At least this many bytes are still to be read. While the length
    /// prefix itself is unfinished that is one byte, afterwards all of
    /// the rest.
    Missing(usize),
}

/// `content` behind its length.
pub open spec fn spec_prefix(content: Seq<u8>) -> Seq<u8> {
    spec_encode(content.len() as i32) + content
}

/// What stands behind the length at the head of `bytes`. The length must
/// be that of all the bytes that follow it: fewer and the input has ended
/// early, more and bytes are left over.
pub open spec fn spec_prefixed(bytes: Seq<u8>) -> Result<Seq<u8>, Error> {
    match spec_decode(bytes) {
        None => Err(Error::Framing(spec_decode_fault(bytes))),
        Some((len, used)) => if len < 0 {
            Err(Error::Framing(FramingFault::NegativeLength))
        } else if bytes.len() < used + len {
            Err(Error::Framing(FramingFault::UnexpectedEnd))
        } else if bytes.len() > used + len {
            Err(Error::Framing(FramingFault::TrailingBytes))
        } else {
            Ok(bytes.skip(used as int))
        },
    }
}

/// What a frame carries for a packet: the identifier, then the body.
pub open spec fn spec_payload(id: i32, body: Seq<u8>) -> Seq<u8> {
    spec_encode(id) + body
}

/// Whether a length prefix can announce the packet.
pub open spec fn spec_fits(id: i32, body: Seq<u8>) -> bool {
    spec_payload(id, body).len() <= i32::MAX
}

/// The frame of a packet that fits.
pub open spec fn spec_frame(id: i32, body: Seq<u8>) -> Seq<u8> {
    spec_prefix(spec_payload(id, body))
}

/// The packet that `payload` carries.
pub open spec fn spec_parse_payload(payload: Seq<u8>) -> Result<(i32, Seq<u8>), Error> {
    match spec_decode(payload) {
        Some((id, used)) => Ok((id, payload.skip(used as int))),
        None => Err(Error::Framing(spec_decode_fault(payload))),
    }
}

/// The packet of the frame that `bytes` are.
pub open spec fn spec_parse_frame(bytes: Seq<u8>) -> Result<(i32, Seq<u8>), Error> {
    match spec_prefixed(bytes) {
        Ok(payload) => spec_parse_payload(payload),
        Err(e) => Err(e),
    }
}

/// The state of a read that has gathered `buffered` so far.
pub open spec fn spec_progress(buffered: Seq<u8>) -> Result<Progress, Error> {
    match spec_decode(buffered) {
        None => if buffered.len() >= MAX_VARINT_LEN {
            Err(Error::Framing(FramingFault::VarIntTooLong))
        } else {
            Ok(Progress::Missing(1))
        },
        Some((len, used)) => if len < 0 {
            Err(Error::Framing(FramingFault::NegativeLength))
        } else if buffered.len() < used + len {
            Ok(Progress::Missing((used + len - buffered.len()) as usize))
        } else if buffered.len() == used + len {
            Ok(Progress::Complete)
        } else {
            Err(Error::Framing(FramingFault::TrailingBytes))
        },
    }
}

/// What was put behind its length is read back whole.
pub proof fn lemma_prefix_round_trip(content: Seq<u8>)
    requires
        content.len() <= i32::MAX,
    ensures
        spec_prefixed(spec_prefix(content)) == Ok::<Seq<u8>, Error>(content),
        spec_progress(spec_prefix(content)) == Ok::<Progress, Error>(Progress::Complete),
{
    let len = content.len() as i32;
    lemma_decode_encode(len, content);
    assert(spec_prefix(content).skip(spec_encode(len).len() as int) =~= content);
}

/// Parsing the frame built for a packet gives the packet back, and a read
/// that has gathered that frame is complete.
pub proof fn lemma_frame_round_trip(id: i32, body: Seq<u8>)
    requires
        spec_fits(id, body),
    ensures
        spec_parse_frame(spec_frame(id, body)) == Ok::<(i32, Seq<u8>), Error>((id, body)),
        spec_progress(spec_frame(id, body)) == Ok::<Progress, Error>(Progress::Complete),
{
    lemma_prefix_round_trip(spec_payload(id, body));
    lemma_decode_encode(id, body);
    assert(spec_payload(id, body).skip(spec_encode(id).len() as int) =~= body);
}

/// A frame is never empty, and no frame is the head of a longer one: a
/// read that stops at the first complete frame stops at its end.
pub proof fn lemma_frame_read_stops(id: i32, body: Seq<u8>, cut: int)
    requires
        spec_fits(id, body),
        0 <= cut < spec_frame(id, body).len(),
    ensures
        spec_progress(spec_frame(id, body).take(cut)) is Ok,
        spec_progress(spec_frame(id, body).take(cut)) != Ok::<Progress, Error>(Progress::Complete),
{
    let payload = spec_payload(id, body);
    let len = payload.len() as i32;
    let frame = spec_frame(id, body);
    let head = frame.take(cut);
    lemma_decode_encode(len, payload);
    crate::varint::lemma_decode_prefix(frame, head);
}

/// Puts `content` behind its length.
fn prefix(content: &[u8]) -> (out: Vec<u8>)
    requires
        content.len() <= i32::MAX,
    ensures
        out@ == spec_prefix(content@),
{
    let mut out = convert_i32_to_varint(content.len() as i32);
    append_bytes(&mut out, content);
    out
}

/// Reads what stands behind the length at the head of `bytes`.
pub fn read_prefixed(bytes: &[u8]) -> (res: Result<&[u8], Error>)
    ensures
        match res {
            Ok(content) => spec_prefixed(bytes@) == Ok::<Seq<u8>, Error>(content@),
            Err(e) => spec_prefixed(bytes@) == Err::<Seq<u8>, Error>(e),
        },
{
    match convert_varint_to_i32(bytes) {
        Err(e) => Err(e),
        Ok((len, used)) => {
            if len < 0 {
                return Err(Error::Framing(FramingFault::NegativeLength));
            }
            let rest: usize = bytes.len() - used;
            let want: usize = len as usize;
            if rest < want {
                Err(Error::Framing(FramingFault::UnexpectedEnd))
            } else if rest > want {
                Err(Error::Framing(FramingFault::TrailingBytes))
            } else {
                let content = vstd::slice::slice_subrange(bytes, used, bytes.len());
                assert(content@ =~= bytes@.skip(used as int));
                Ok(content)
            }
        },
    }
}

/// Builds the frame of a packet that fits.
pub(crate) fn frame_of(id: i32, body: &[u8]) -> (frame: Vec<u8>)
    requires
        spec_fits(id, body@),
    ensures
        frame@ == spec_frame(id, body@),
{
    let mut payload = convert_i32_to_varint(id);
    append_bytes(&mut payload, body);
    prefix(payload.as_slice())
}

/// Builds the frame of a packet. Fails, with `Oversized`, only where the
/// identifier and the body together are longer than a length prefix can
/// announce.
pub fn build_frame(id: i32, body: &[u8]) -> (res: Result<Vec<u8>, Error>)
    ensures
        match res {
            Ok(frame) => spec_fits(id, body@) && frame@ == spec_frame(id, body@),
            Err(e) => !spec_fits(id, body@) && e == Error::Framing(FramingFault::Oversized),
        },
{
    proof {
        lemma_encode_len(id);
    }
    if body.len() > (i32::MAX as usize) - MAX_VARINT_LEN {
        let id_len: usize = convert_i32_to_varint(id).len();
        if body.len() > (i32::MAX as usize) - id_len {
            return Err(Error::Framing(FramingFault::Oversized));
        }
    }
    Ok(frame_of(id, body))
}

/// Reads a packet from the bytes that a frame carries: the identifier,
/// and the rest as the body.
pub fn parse_payload(payload: &[u8]) -> (res: Result<Packet, Error>)
    ensures
        match res {
            Ok(p) => spec_parse_payload(payload@) == Ok::<(i32, Seq<u8>), Error>((p.id, p.body@)),
            Err(e) => spec_parse_payload(payload@) == Err::<(i32, Seq<u8>), Error>(e),
        },
{
    match convert_varint_to_i32(payload) {
        Ok((id, used)) => {
            let mut body: Vec<u8> = Vec::new();
            append_bytes(&mut body, vstd::slice::slice_subrange(payload, used, payload.len()));
            assert(body@ =~= payload@.skip(used as int));
            Ok(Packet { id, body })
        },
        Err(e) => Err(e),
    }
}

/// Says how far `buffered`, the bytes read so far, are from one whole
/// frame, so that a reader never asks the transport for a byte too many.
pub fn frame_progress(buffered: &[u8]) -> (res: Result<Progress, Error>)
    ensures
        res == spec_progress(buffered@),
{
    match convert_varint_to_i32(buffered) {
        Err(_) => {
            if buffered.len() >= MAX_VARINT_LEN {
                Err(Error::Framing(FramingFault::VarIntTooLong))
            } else {
                Ok(Progress::Missing(1))
            }
        },
        Ok((len, used)) => {
            if len < 0 {
                return Err(Error::Framing(FramingFault::NegativeLength));
            }
            let rest: usize = buffered.len() - used;
            let want: usize = len as usize;
            if rest < want {
                Ok(Progress::Missing(want - rest))
            } else if rest == want {
                Ok(Progress::Complete)
            } else {
                Err(Error::Framing(FramingFault::TrailingBytes))
            }
        },
    }
}

/// Reads the packet of one whole frame.
pub fn parse_frame(frame: &[u8]) -> (res: Result<Packet, Error>)
    ensures
        match res {
            Ok(p) => spec_parse_frame(frame@) == Ok::<(i32, Seq<u8>), Error>((p.id, p.body@)),
            Err(e) => spec_parse_frame(frame@) == Err::<(i32, Seq<u8>), Error>(e),
        },
{
    match read_prefixed(frame) {
        Ok(payload) => parse_payload(payload),
        Err(e) => Err(e),
    }
}

} // verus!

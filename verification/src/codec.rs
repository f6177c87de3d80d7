//! The framing of the control channel: each message travels as a four-byte
//! big-endian length followed by exactly that many bytes of payload.

use vstd::prelude::*;

verus! {

/// The number of bytes of the length that precedes each payload.
pub const HEADER_LEN: usize = 4;

/// Why a frame could not be written or read.
#[derive(Clone, Copy, Debug, PartialEq, Eq, Structural)]
pub enum CodecError {
    /// The payload is longer than a frame's length field can say.
    PayloadTooLarge,
    /// The bytes end before the frame does.
    Truncated,
}

/// The four bytes that write `n` with the most significant byte first.
pub open spec fn be_bytes(n: u32) -> Seq<u8> {
    seq![
        (n / 0x100_0000) as u8,
        (n / 0x1_0000 % 0x100) as u8,
        (n / 0x100 % 0x100) as u8,
        (n % 0x100) as u8,
    ]
}

/// The number that the first four bytes of `b` write, the most
/// significant byte first.
pub open spec fn be_value(b: Seq<u8>) -> nat
    recommends
        b.len() >= 4,
{
    (b[0] as nat) * 0x100_0000 + (b[1] as nat) * 0x1_0000 + (b[2] as nat) * 0x100 + (b[3] as nat)
}

/// The frame that carries `payload`.
pub open spec fn frame_of(payload: Seq<u8>) -> Seq<u8>
    recommends
        payload.len() <= u32::MAX,
{
    be_bytes(payload.len() as u32) + payload
}

/// The payload of the frame at the start of `bytes` and the length of
/// that frame, or `None` where `bytes` ends before the frame does.
pub open spec fn parse_frame(bytes: Seq<u8>) -> Option<(Seq<u8>, nat)> {
    if bytes.len() < 4 || bytes.len() < 4 + be_value(bytes) {
        None
    } else {
        Some((bytes.subrange(4, 4 + be_value(bytes) as int), 4 + be_value(bytes)))
    }
}

/// The frames that carry the payloads one after the other.
pub open spec fn frames_of(payloads: Seq<Seq<u8>>) -> Seq<u8>
    decreases payloads.len(),
{
    if payloads.len() == 0 {
        seq![]
    } else {
        frame_of(payloads[0]) + frames_of(payloads.drop_first())
    }
}

/// The payloads of the complete frames at the start of `bytes`, in order.
pub open spec fn parse_frames(bytes: Seq<u8>) -> Seq<Seq<u8>>
    decreases bytes.len(),
{
    match parse_frame(bytes) {
        None => seq![],
        Some((payload, used)) => seq![payload] + parse_frames(bytes.skip(used as int)),
    }
}

/// The length field for a payload of `len` bytes.
pub fn frame_header(len: u32) -> (header: [u8; 4])
    ensures
        header@ == be_bytes(len),
{
    let header: [u8; 4] = [
        (len / 0x100_0000) as u8,
        (len / 0x1_0000 % 0x100) as u8,
        (len / 0x100 % 0x100) as u8,
        (len % 0x100) as u8,
    ];
    assert(header@ =~= be_bytes(len));
    header
}

/// The payload length that a length field announces.
pub fn payload_len(header: &[u8; 4]) -> (len: u32)
    ensures
        len == be_value(header@),
{
    (header[0] as u32) * 0x100_0000 + (header[1] as u32) * 0x1_0000 + (header[2] as u32) * 0x100
        + (header[3] as u32)
}

/// Reading back a length field gives the length that was written.
pub proof fn lemma_header_round_trip(len: u32)
    ensures
        be_value(be_bytes(len)) == len,
        be_bytes(len).len() == 4,
{
}

/// Frames `payload`: its length in four bytes, then the payload itself.
/// A payload of more than `u32::MAX` bytes has no frame.
pub fn encode_frame(payload: &[u8]) -> (r: Result<Vec<u8>, CodecError>)
    ensures
        payload@.len() <= u32::MAX ==> (r matches Ok(frame) && frame@ == frame_of(payload@)),
        payload@.len() > u32::MAX ==> r == Err::<Vec<u8>, CodecError>(CodecError::PayloadTooLarge),
{
    if payload.len() > u32::MAX as usize {
        return Err(CodecError::PayloadTooLarge);
    }
    let header = frame_header(payload.len() as u32);
    let mut frame: Vec<u8> = Vec::new();
    let mut i: usize = 0;
    while i < 4
        invariant
            i <= 4,
            header@.len() == 4,
            frame@ == header@.take(i as int),
        decreases 4 - i,
    {
        frame.push(header[i]);
        i += 1;
        assert(frame@ =~= header@.take(i as int));
    }
    assert(header@.take(4) =~= header@);
    let mut j: usize = 0;
    while j < payload.len()
        invariant
            j <= payload.len(),
            frame@ == header@ + payload@.take(j as int),
        decreases payload.len() - j,
    {
        frame.push(payload[j]);
        j += 1;
        assert(frame@ =~= header@ + payload@.take(j as int));
    }
    assert(payload@.take(j as int) =~= payload@);
    Ok(frame)
}

/// Reads the frame at the start of `bytes`: its payload and the number of
/// bytes that the frame takes. Bytes that end before the frame does are
/// an error.
pub fn decode_frame(bytes: &[u8]) -> (r: Result<(Vec<u8>, usize), CodecError>)
    ensures
        match parse_frame(bytes@) {
            Some((payload, used)) => r matches Ok((p, n)) && p@ == payload && n == used,
            None => r == Err::<(Vec<u8>, usize), CodecError>(CodecError::Truncated),
        },
{
    if bytes.len() < 4 {
        return Err(CodecError::Truncated);
    }
    let header: [u8; 4] = [bytes[0], bytes[1], bytes[2], bytes[3]];
    let len = payload_len(&header);
    assert(be_value(header@) == be_value(bytes@));
    if ((bytes.len() - 4) as u64) < len as u64 {
        return Err(CodecError::Truncated);
    }
    let end: usize = 4 + len as usize;
    let mut payload: Vec<u8> = Vec::new();
    let mut i: usize = 4;
    while i < end
        invariant
            4 <= i <= end <= bytes.len(),
            payload@ == bytes@.subrange(4, i as int),
        decreases end - i,
    {
        payload.push(bytes[i]);
        i += 1;
        assert(payload@ =~= bytes@.subrange(4, i as int));
    }
    Ok((payload, end))
}

/// A frame that is read back gives the payload that was framed, and
/// leaves what follows the frame untouched.
pub proof fn lemma_frame_round_trip(payload: Seq<u8>, rest: Seq<u8>)
    requires
        payload.len() <= u32::MAX,
    ensures
        parse_frame(frame_of(payload) + rest) == Some((payload, 4 + payload.len())),
        (frame_of(payload) + rest).skip(4 + payload.len() as int) == rest,
{
    let bytes = frame_of(payload) + rest;
    let header = be_bytes(payload.len() as u32);
    lemma_header_round_trip(payload.len() as u32);
    assert(bytes[0] == header[0] && bytes[1] == header[1] && bytes[2] == header[2] && bytes[3]
        == header[3]);
    assert(be_value(bytes) == payload.len());
    assert(bytes.subrange(4, 4 + payload.len() as int) =~= payload);
    assert(bytes.skip(4 + payload.len() as int) =~= rest);
}

/// Frames written one after the other are read back as the same payloads
/// in the same order.
pub proof fn lemma_frames_round_trip(payloads: Seq<Seq<u8>>)
    requires
        forall|i: int| 0 <= i < payloads.len() ==> (#[trigger] payloads[i]).len() <= u32::MAX,
    ensures
        parse_frames(frames_of(payloads)) == payloads,
    decreases payloads.len(),
{
    if payloads.len() == 0 {
        assert(frames_of(payloads) =~= Seq::<u8>::empty());
        assert(parse_frame(frames_of(payloads)) is None);
        assert(parse_frames(frames_of(payloads)) =~= payloads);
    } else {
        let first = payloads[0];
        let rest = payloads.drop_first();
        assert forall|i: int| 0 <= i < rest.len() implies (#[trigger] rest[i]).len()
            <= u32::MAX by {
            assert(rest[i] == payloads[i + 1]);
        }
        lemma_frame_round_trip(first, frames_of(rest));
        lemma_frames_round_trip(rest);
        assert(parse_frames(frames_of(payloads)) =~= seq![first] + rest);
        assert(seq![first] + rest =~= payloads);
    }
}

} // verus!

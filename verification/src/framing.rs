//! Length-prefixed framing of the speech-to-text worker protocol: each frame
//! is a 4-byte little-endian length followed by that many payload bytes.
//!
//! Encoding appends to a byte buffer; decoding reads from the bytes a stream
//! holds. A streaming reader drives `prefix_progress` and `decode_frame_len`.
use vstd::prelude::*;
use vstd::bytes::{spec_u32_from_le_bytes, spec_u32_to_le_bytes, u32_from_le_bytes, u32_to_le_bytes};

verus! {

/// Largest payload a frame may carry (256 MiB).
pub const MAX_FRAME_BYTES: u32 = 268435456;

/// Length of the prefix.
pub const PREFIX_BYTES: usize = 4;

#[derive(Debug, Clone, Copy, PartialEq, Eq, Structural)]
pub enum FrameError {
    /// The length (or `u32::MAX` when it does not fit in 32 bits) exceeds
    /// `MAX_FRAME_BYTES`.
    TooLarge(u32),
    /// The input ended inside a length prefix or a payload.
    UnexpectedEof,
}

/// The bytes of one frame carrying `payload`.
pub open spec fn encode_frame(payload: Seq<u8>) -> Seq<u8> {
    spec_u32_to_le_bytes(payload.len() as u32) + payload
}

/// Result of reading a length prefix from the start of `input`.
pub open spec fn spec_read_frame_len(input: Seq<u8>) -> Result<Option<u32>, FrameError> {
    if input.len() == 0 {
        Ok(None)
    } else if input.len() < 4 {
        Err(FrameError::UnexpectedEof)
    } else {
        let len = spec_u32_from_le_bytes(input.take(4));
        if len > MAX_FRAME_BYTES {
            Err(FrameError::TooLarge(len))
        } else {
            Ok(Some(len))
        }
    }
}

/// Result of reading a `len`-byte body from the start of `input`.
pub open spec fn spec_read_frame_body(input: Seq<u8>, len: u32) -> Result<Seq<u8>, FrameError> {
    if input.len() < len {
        Err(FrameError::UnexpectedEof)
    } else {
        Ok(input.take(len as int))
    }
}

/// Result of reading one whole frame from the start of `input`: `None` on a
/// clean end of input before any byte.
pub open spec fn spec_read_frame(input: Seq<u8>) -> Result<Option<Seq<u8>>, FrameError> {
    match spec_read_frame_len(input) {
        Err(e) => Err(e),
        Ok(None) => Ok(None),
        Ok(Some(len)) => match spec_read_frame_body(input.skip(4), len) {
            Err(e) => Err(e),
            Ok(body) => Ok(Some(body)),
        },
    }
}

/// Bytes taken from the input by a successful read of a frame of `len`.
pub open spec fn frame_size(len: u32) -> nat {
    4 + len as nat
}

pub open spec fn bytes_view(r: Result<Option<Vec<u8>>, FrameError>) -> Result<
    Option<Seq<u8>>,
    FrameError,
> {
    match r {
        Ok(Some(v)) => Ok(Some(v@)),
        Ok(None) => Ok(None),
        Err(e) => Err(e),
    }
}

/// Append the frame carrying `payload` to `out`; oversized payloads are
/// refused and leave `out` untouched.
pub fn write_frame(out: &mut Vec<u8>, payload: &[u8]) -> (r: Result<(), FrameError>)
    ensures
        payload@.len() > u32::MAX ==> r == Err::<(), FrameError>(FrameError::TooLarge(u32::MAX)),
        payload@.len() <= u32::MAX && payload@.len() > MAX_FRAME_BYTES ==> r == Err::<
            (),
            FrameError,
        >(FrameError::TooLarge(payload@.len() as u32)),
        payload@.len() <= MAX_FRAME_BYTES ==> r is Ok,
        r is Ok ==> final(out)@ == old(out)@ + encode_frame(payload@),
        r is Err ==> final(out)@ == old(out)@,
{
    if payload.len() > 4294967295usize {
        return Err(FrameError::TooLarge(4294967295u32));
    }
    let len = payload.len() as u32;
    if len > MAX_FRAME_BYTES {
        return Err(FrameError::TooLarge(len));
    }
    let prefix = u32_to_le_bytes(len);
    let ghost start = out@;
    let mut i: usize = 0;
    while i < prefix.len()
        invariant
            prefix@ == spec_u32_to_le_bytes(len),
            i <= prefix@.len(),
            out@ == start + prefix@.take(i as int),
        decreases prefix@.len() - i,
    {
        out.push(prefix[i]);
        assert(out@ =~= start + prefix@.take(i + 1));
        i = i + 1;
    }
    assert(prefix@.take(prefix@.len() as int) =~= prefix@);
    let ghost mid = out@;
    let mut j: usize = 0;
    while j < payload.len()
        invariant
            j <= payload@.len(),
            out@ == mid + payload@.take(j as int),
        decreases payload@.len() - j,
    {
        out.push(payload[j]);
        assert(out@ =~= mid + payload@.take(j + 1));
        j = j + 1;
    }
    assert(payload@.take(payload@.len() as int) =~= payload@);
    assert(out@ =~= start + encode_frame(payload@));
    Ok(())
}

/// Decode a complete 4-byte prefix, refusing lengths over the maximum.
pub fn decode_frame_len(prefix: &[u8]) -> (r: Result<u32, FrameError>)
    requires
        prefix@.len() == 4,
    ensures
        r == (if spec_u32_from_le_bytes(prefix@) > MAX_FRAME_BYTES {
            Err(FrameError::TooLarge(spec_u32_from_le_bytes(prefix@)))
        } else {
            Ok(spec_u32_from_le_bytes(prefix@))
        }),
{
    let len = u32_from_le_bytes(prefix);
    if len > MAX_FRAME_BYTES {
        Err(FrameError::TooLarge(len))
    } else {
        Ok(len)
    }
}

/// Where a streaming read of a length prefix stands after one read.
#[derive(Debug, Clone, Copy, PartialEq, Eq, Structural)]
pub enum PrefixProgress {
    /// The stream ended before the frame began.
    CleanEof,
    /// The stream ended inside the prefix.
    Truncated,
    /// This many prefix bytes have now been read.
    Advanced(usize),
}

/// Step of a streaming prefix read: `read` bytes were held and the last read
/// returned `n` (`n == 0` is end of stream).
pub fn prefix_progress(read: usize, n: usize) -> (r: PrefixProgress)
    requires
        read < 4,
        n <= 4 - read,
    ensures
        n == 0 && read == 0 ==> r == PrefixProgress::CleanEof,
        n == 0 && read > 0 ==> r == PrefixProgress::Truncated,
        n > 0 ==> r == PrefixProgress::Advanced((read + n) as usize),
{
    if n == 0 {
        if read == 0 {
            PrefixProgress::CleanEof
        } else {
            PrefixProgress::Truncated
        }
    } else {
        PrefixProgress::Advanced(read + n)
    }
}

/// Read a length prefix from the start of the bytes a stream holds: `None`
/// when the stream is empty.
pub fn read_frame_len(input: &[u8]) -> (r: Result<Option<u32>, FrameError>)
    ensures
        r == spec_read_frame_len(input@),
{
    if input.len() == 0 {
        return Ok(None);
    }
    if input.len() < 4 {
        return Err(FrameError::UnexpectedEof);
    }
    let prefix = [input[0], input[1], input[2], input[3]];
    assert(prefix@ =~= input@.take(4));
    match decode_frame_len(prefix.as_slice()) {
        Ok(len) => Ok(Some(len)),
        Err(e) => Err(e),
    }
}

fn read_body_at(input: &[u8], start: usize, len: u32) -> (r: Result<Vec<u8>, FrameError>)
    requires
        start <= input@.len(),
    ensures
        match r {
            Ok(v) => Ok::<Seq<u8>, FrameError>(v@) == spec_read_frame_body(
                input@.skip(start as int),
                len,
            ),
            Err(e) => Err::<Seq<u8>, FrameError>(e) == spec_read_frame_body(
                input@.skip(start as int),
                len,
            ),
        },
{
    let avail = input.len() - start;
    let len = len as usize;
    if avail < len {
        return Err(FrameError::UnexpectedEof);
    }
    let mut body: Vec<u8> = Vec::new();
    let mut i: usize = 0;
    while i < len
        invariant
            i <= len,
            start + len <= input@.len(),
            input@.len() <= usize::MAX,
            body@ == input@.subrange(start as int, start + i),
        decreases len - i,
    {
        body.push(input[start + i]);
        assert(body@ =~= input@.subrange(start as int, start + i + 1));
        i = i + 1;
    }
    assert(body@ =~= input@.skip(start as int).take(len as int));
    Ok(body)
}

/// Read exactly `len` payload bytes from the start of `input`.
pub fn read_frame_body(input: &[u8], len: u32) -> (r: Result<Vec<u8>, FrameError>)
    ensures
        match r {
            Ok(v) => Ok::<Seq<u8>, FrameError>(v@) == spec_read_frame_body(input@, len),
            Err(e) => Err::<Seq<u8>, FrameError>(e) == spec_read_frame_body(input@, len),
        },
{
    assert(input@.skip(0) =~= input@);
    read_body_at(input, 0, len)
}

/// Read one whole frame from the start of `input`.
pub fn read_frame(input: &[u8]) -> (r: Result<Option<Vec<u8>>, FrameError>)
    ensures
        bytes_view(r) == spec_read_frame(input@),
{
    match read_frame_len(input) {
        Err(e) => Err(e),
        Ok(None) => Ok(None),
        Ok(Some(len)) => match read_body_at(input, 4, len) {
            Err(e) => Err(e),
            Ok(body) => Ok(Some(body)),
        },
    }
}

/// Round trip: whatever follows it, a frame written for a payload within
/// the limit reads back as that payload, and reading takes exactly the
/// frame's bytes, leaving the rest of the stream where the next frame starts.
pub proof fn lemma_frame_round_trip(payload: Seq<u8>, rest: Seq<u8>)
    requires
        payload.len() <= MAX_FRAME_BYTES,
    ensures
        spec_read_frame(encode_frame(payload) + rest) == Ok::<Option<Seq<u8>>, FrameError>(
            Some(payload),
        ),
        spec_read_frame_len(encode_frame(payload) + rest) == Ok::<Option<u32>, FrameError>(
            Some(payload.len() as u32),
        ),
        (encode_frame(payload) + rest).skip(frame_size(payload.len() as u32) as int) == rest,
        encode_frame(payload).len() == frame_size(payload.len() as u32),
{
    vstd::bytes::lemma_auto_spec_u32_to_from_le_bytes();
    let len = payload.len() as u32;
    let input = encode_frame(payload) + rest;
    assert(input.take(4) =~= spec_u32_to_le_bytes(len));
    assert(input.skip(4).take(len as int) =~= payload);
    assert(input.skip(4 + len as int) =~= rest);
}

/// Oversized frames are refused by length alone, before any payload byte is
/// read.
pub proof fn lemma_oversized_prefix_refused(input: Seq<u8>)
    requires
        input.len() >= 4,
        spec_u32_from_le_bytes(input.take(4)) > MAX_FRAME_BYTES,
    ensures
        spec_read_frame(input) == Err::<Option<Seq<u8>>, FrameError>(
            FrameError::TooLarge(spec_u32_from_le_bytes(input.take(4))),
        ),
{
}

/// An input that ends inside a prefix or a body is an error, never a frame.
pub proof fn lemma_truncated_frame_is_error(payload: Seq<u8>, cut: int)
    requires
        payload.len() <= MAX_FRAME_BYTES,
        0 < cut < encode_frame(payload).len(),
    ensures
        spec_read_frame(encode_frame(payload).take(cut)) == Err::<Option<Seq<u8>>, FrameError>(
            FrameError::UnexpectedEof,
        ),
{
    vstd::bytes::lemma_auto_spec_u32_to_from_le_bytes();
    let input = encode_frame(payload).take(cut);
    if cut >= 4 {
        assert(input.take(4) =~= spec_u32_to_le_bytes(payload.len() as u32));
    }
}

} // verus!

//! The song transfer frame sent on the control channel:
//! a signature byte, a big-endian `u32` name length, the name, a big-endian
//! `u32` payload length and the payload.
use vstd::prelude::*;
use vstd::string::StringSliceAdditionalSpecFns;

verus! {

/// The byte that opens every song transfer frame (ASCII `f`).
pub const SIGNATURE: u8 = 0x66;

/// Bytes taken by the signature and the two length fields.
pub const HEADER_BYTES: usize = 9;

/// The four big-endian bytes of `n`.
pub open spec fn be32_bytes(n: u32) -> Seq<u8> {
    seq![(n >> 24u32) as u8, (n >> 16u32) as u8, (n >> 8u32) as u8, n as u8]
}

/// The `u32` whose big-endian bytes are `b0 b1 b2 b3`.
pub open spec fn be32_value(b0: u8, b1: u8, b2: u8, b3: u8) -> u32 {
    ((b0 as u32) << 24u32) | ((b1 as u32) << 16u32) | ((b2 as u32) << 8u32) | (b3 as u32)
}

/// The big-endian `u32` that starts at position `at` of `s`.
pub open spec fn be32_at(s: Seq<u8>, at: int) -> int {
    be32_value(s[at], s[at + 1], s[at + 2], s[at + 3]) as int
}

/// The frame that carries `name` and `payload`.
pub open spec fn frame_bytes(name: Seq<u8>, payload: Seq<u8>) -> Seq<u8> {
    seq![SIGNATURE] + be32_bytes(name.len() as u32) + name + be32_bytes(payload.len() as u32)
        + payload
}

/// Why a frame could not be read.
#[derive(Debug, Clone, Copy, PartialEq, Eq, Structural)]
pub enum ProtocolError {
    /// The first byte is not the signature.
    BadSignature,
    /// The bytes end before everything the length fields declare.
    Truncated,
}

/// The name and payload read from the front of `s`, or why there is none.
/// The name length is read before the name, the payload length before the
/// payload; nothing is scanned for.
pub open spec fn decode_spec(s: Seq<u8>) -> Result<(Seq<u8>, Seq<u8>), ProtocolError> {
    if s.len() == 0 {
        Err(ProtocolError::Truncated)
    } else if s[0] != SIGNATURE {
        Err(ProtocolError::BadSignature)
    } else if s.len() < 5 {
        Err(ProtocolError::Truncated)
    } else {
        let n = be32_at(s, 1);
        if s.len() < 9 + n {
            Err(ProtocolError::Truncated)
        } else {
            let m = be32_at(s, 5 + n);
            if s.len() < 9 + n + m {
                Err(ProtocolError::Truncated)
            } else {
                Ok((s.subrange(5, 5 + n), s.subrange(9 + n, 9 + n + m)))
            }
        }
    }
}

/// A decoded frame.
pub struct Frame {
    /// The name field (UTF-8 text of a path on the sending side).
    pub name: Vec<u8>,
    /// The payload field (the file's bytes).
    pub payload: Vec<u8>,
}

proof fn lemma_be32_round_trip(n: u32)
    ensures
        be32_value(
            (n >> 24u32) as u8,
            (n >> 16u32) as u8,
            (n >> 8u32) as u8,
            n as u8,
        ) == n,
{
    assert(((((n >> 24u32) as u8) as u32) << 24u32) | ((((n >> 16u32) as u8) as u32) << 16u32)
        | ((((n >> 8u32) as u8) as u32) << 8u32) | ((n as u8) as u32) == n) by (bit_vector);
}

/// Appends the big-endian bytes of `n` to `out`.
fn push_be32(out: &mut Vec<u8>, n: u32)
    ensures
        final(out)@ == old(out)@ + be32_bytes(n),
{
    out.push((n >> 24u32) as u8);
    out.push((n >> 16u32) as u8);
    out.push((n >> 8u32) as u8);
    out.push(n as u8);
    assert(final(out)@ =~= old(out)@ + be32_bytes(n));
}

/// Appends the bytes of `src` to `out`.
fn push_all(out: &mut Vec<u8>, src: &[u8])
    ensures
        final(out)@ == old(out)@ + src@,
{
    let ghost start = out@;
    let mut i: usize = 0;
    while i < src.len()
        invariant
            i <= src@.len(),
            out@ == start + src@.subrange(0, i as int),
        decreases src@.len() - i,
    {
        out.push(src[i]);
        i = i + 1;
        assert(out@ =~= start + src@.subrange(0, i as int));
    }
    assert(src@.subrange(0, i as int) =~= src@);
}

/// Copies the bytes of `s` from `start` up to `end`.
fn copy_range(s: &[u8], start: usize, end: usize) -> (r: Vec<u8>)
    requires
        start <= end <= s@.len(),
    ensures
        r@ == s@.subrange(start as int, end as int),
{
    let mut r: Vec<u8> = Vec::new();
    let mut i: usize = start;
    while i < end
        invariant
            start <= i <= end,
            end <= s@.len(),
            r@ == s@.subrange(start as int, i as int),
        decreases end - i,
    {
        r.push(s[i]);
        i = i + 1;
        assert(r@ =~= s@.subrange(start as int, i as int));
    }
    r
}

/// Reads the big-endian `u32` at position `at` of `s`.
fn read_be32(s: &[u8], at: usize) -> (r: u32)
    requires
        at + 4 <= s@.len(),
    ensures
        r as int == be32_at(s@, at as int),
{
    ((s[at] as u32) << 24u32) | ((s[at + 1] as u32) << 16u32) | ((s[at + 2] as u32) << 8u32)
        | (s[at + 3] as u32)
}

/// Builds the frame that carries `name` and `payload`: exactly
/// `1 + 4 + name.len() + 4 + payload.len()` bytes.
pub fn encode(name: &[u8], payload: &[u8]) -> (r: Vec<u8>)
    requires
        name@.len() <= u32::MAX,
        payload@.len() <= u32::MAX,
    ensures
        r@ == frame_bytes(name@, payload@),
        r@.len() == HEADER_BYTES + name@.len() + payload@.len(),
{
    let mut out: Vec<u8> = Vec::new();
    out.push(SIGNATURE);
    push_be32(&mut out, name.len() as u32);
    push_all(&mut out, name);
    push_be32(&mut out, payload.len() as u32);
    push_all(&mut out, payload);
    assert(out@ =~= frame_bytes(name@, payload@));
    out
}

/// Reads one frame from the front of `stream`. On success it also returns the
/// number of bytes the frame took, so that the next frame starts right after.
pub fn decode(stream: &[u8]) -> (r: Result<(Frame, usize), ProtocolError>)
    ensures
        r is Ok <==> decode_spec(stream@) is Ok,
        r is Ok ==> decode_spec(stream@) == Ok::<(Seq<u8>, Seq<u8>), ProtocolError>(
            (r->Ok_0.0.name@, r->Ok_0.0.payload@),
        ),
        r is Ok ==> r->Ok_0.1 == HEADER_BYTES + r->Ok_0.0.name@.len()
            + r->Ok_0.0.payload@.len(),
        r is Err ==> decode_spec(stream@) == Err::<(Seq<u8>, Seq<u8>), ProtocolError>(
            r->Err_0,
        ),
{
    let len = stream.len();
    if len == 0 {
        return Err(ProtocolError::Truncated);
    }
    if stream[0] != SIGNATURE {
        return Err(ProtocolError::BadSignature);
    }
    if len < 5 {
        return Err(ProtocolError::Truncated);
    }
    let n = read_be32(stream, 1) as usize;
    if len - 5 < n || len - 5 - n < 4 {
        return Err(ProtocolError::Truncated);
    }
    let name_end = 5 + n;
    let m = read_be32(stream, name_end) as usize;
    if len - 9 - n < m {
        return Err(ProtocolError::Truncated);
    }
    let name = copy_range(stream, 5, name_end);
    let payload = copy_range(stream, name_end + 4, name_end + 4 + m);
    Ok((Frame { name, payload }, name_end + 4 + m))
}

/// The upload frame for the file at `file_path` with contents `contents`: the
/// path's UTF-8 bytes as the name and the contents as the payload. `None` when
/// either is too long for its `u32` length field.
pub fn build_song_message(file_path: &str, contents: &[u8]) -> (r: Option<Vec<u8>>)
    ensures
        r is Some <==> (file_path.spec_bytes().len() <= u32::MAX && contents@.len() <= u32::MAX),
        r is Some ==> r->Some_0@ == frame_bytes(file_path.spec_bytes(), contents@),
{
    let name = file_path.as_bytes();
    if name.len() > 4294967295usize || contents.len() > 4294967295usize {
        None
    } else {
        Some(encode(name, contents))
    }
}

/// Decoding a frame built from `name` and `payload` gives back exactly `name`
/// and `payload`, whatever bytes follow it, and the frame takes
/// `9 + name.len() + payload.len()` bytes.
pub proof fn lemma_round_trip(name: Seq<u8>, payload: Seq<u8>, rest: Seq<u8>)
    requires
        name.len() <= u32::MAX,
        payload.len() <= u32::MAX,
    ensures
        decode_spec(frame_bytes(name, payload) + rest) == Ok::<
            (Seq<u8>, Seq<u8>),
            ProtocolError,
        >((name, payload)),
        frame_bytes(name, payload).len() == 9 + name.len() + payload.len(),
{
    let f = frame_bytes(name, payload);
    let s = f + rest;
    let n = name.len() as int;
    let m = payload.len() as int;
    lemma_be32_round_trip(n as u32);
    lemma_be32_round_trip(m as u32);
    assert(f.len() == 9 + n + m);
    assert(s[0] == SIGNATURE);
    assert(be32_at(s, 1) == n);
    assert(be32_at(s, 5 + n) == m);
    assert(s.subrange(5, 5 + n) =~= name);
    assert(s.subrange(9 + n, 9 + n + m) =~= payload);
}

/// Any proper prefix of a frame is refused as truncated.
pub proof fn lemma_truncated(name: Seq<u8>, payload: Seq<u8>, k: nat)
    requires
        name.len() <= u32::MAX,
        payload.len() <= u32::MAX,
        k < frame_bytes(name, payload).len(),
    ensures
        decode_spec(frame_bytes(name, payload).take(k as int)) == Err::<
            (Seq<u8>, Seq<u8>),
            ProtocolError,
        >(ProtocolError::Truncated),
{
    let f = frame_bytes(name, payload);
    let s = f.take(k as int);
    let n = name.len() as int;
    lemma_be32_round_trip(n as u32);
    lemma_be32_round_trip(payload.len() as u32);
    if k >= 5 {
        assert(s[0] == SIGNATURE);
        assert(be32_at(s, 1) == n);
        if k >= 9 + n {
            assert(be32_at(s, 5 + n) == payload.len() as int);
        }
    } else if k > 0 {
        assert(s[0] == SIGNATURE);
    }
}

} // verus!

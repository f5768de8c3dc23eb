//! Length-prefixed framing of serialized messages.
//!
//! A frame is a four-byte little-endian length followed by the payload bytes.
//! Writers frame any payload whose length fits the four-byte prefix; readers
//! refuse a frame whose announced length exceeds [`MAX_MESSAGE_SIZE`].
use vstd::prelude::*;
use vstd::slice::slice_subrange;
use vstd::slice::slice_to_vec;

verus! {

/// Largest payload, in bytes, that a reader accepts (16 MiB).
pub const MAX_MESSAGE_SIZE: usize = 16 * 1024 * 1024;

/// Why a frame could not be read.
#[derive(Debug, Clone, Copy, PartialEq, Eq, Structural)]
pub enum WireError {
    /// The input ended before the length prefix or the payload was complete.
    Truncated,
    /// The length that a prefix announces exceeds [`MAX_MESSAGE_SIZE`] bytes,
    /// or a payload's length does not fit a four-byte prefix.
    TooLarge(usize),
}

/// The four little-endian bytes of `n`.
pub open spec fn le_bytes(n: u32) -> Seq<u8> {
    seq![
        (n % 256) as u8,
        ((n / 256) % 256) as u8,
        ((n / 65536) % 256) as u8,
        (n / 16777216) as u8,
    ]
}

/// The number that four little-endian bytes denote.
pub open spec fn le_value(b: Seq<u8>) -> int
    recommends
        b.len() == 4,
{
    b[0] + 256 * b[1] + 65536 * b[2] + 16777216 * b[3]
}

/// The frame of `payload`: its length as four little-endian bytes, then the
/// payload itself.
pub open spec fn frame(payload: Seq<u8>) -> Seq<u8>
    recommends
        payload.len() <= u32::MAX,
{
    le_bytes(payload.len() as u32) + payload
}

/// What a reader makes of the start of `buf`: the payload of the first frame
/// and the number of bytes that frame occupies, or why there is none.
pub open spec fn read_frame_spec(buf: Seq<u8>) -> Result<(Seq<u8>, nat), WireError> {
    if buf.len() < 4 {
        Err(WireError::Truncated)
    } else {
        let n = le_value(buf.take(4));
        if n > MAX_MESSAGE_SIZE {
            Err(WireError::TooLarge(n as usize))
        } else if buf.len() < 4 + n {
            Err(WireError::Truncated)
        } else {
            Ok((buf.subrange(4, 4 + n), (4 + n) as nat))
        }
    }
}

/// What a reader decides from a length prefix alone.
pub open spec fn payload_len_spec(header: Seq<u8>) -> Result<usize, WireError> {
    let n = le_value(header);
    if n > MAX_MESSAGE_SIZE {
        Err(WireError::TooLarge(n as usize))
    } else {
        Ok(n as usize)
    }
}

/// Decoding the bytes of a number gives the number back.
pub proof fn lemma_le_value_of_bytes(n: u32)
    ensures
        le_bytes(n).len() == 4,
        le_value(le_bytes(n)) == n,
{
    let b = le_bytes(n);
    let n0 = n % 256;
    let q0 = n / 256;
    let n1 = q0 % 256;
    let q1 = q0 / 256;
    let n2 = q1 % 256;
    let n3 = q1 / 256;
    assert(n == 256 * q0 + n0);
    assert(q0 == 256 * q1 + n1);
    assert(q1 == 256 * n3 + n2);
    assert(n / 65536 == q1) by {
        vstd::arithmetic::div_mod::lemma_div_denominator(n as int, 256, 256);
    }
    assert(n / 16777216 == n3) by {
        vstd::arithmetic::div_mod::lemma_div_denominator(n as int, 65536, 256);
    }
    assert(b[0] == n0 && b[1] == n1 && b[2] == n2 && b[3] == n3);
}

/// Encoding the number that four bytes denote gives the bytes back.
pub proof fn lemma_le_bytes_of_value(b: Seq<u8>)
    requires
        b.len() == 4,
    ensures
        0 <= le_value(b) <= u32::MAX,
        le_bytes(le_value(b) as u32) == b,
{
    let n = le_value(b);
    let q1 = b[2] + 256 * b[3];
    let q0 = b[1] + 256 * q1;
    assert(n == b[0] + 256 * q0);
    assert(n % 256 == b[0] && n / 256 == q0) by {
        vstd::arithmetic::div_mod::lemma_fundamental_div_mod_converse(n, 256, q0, b[0] as int);
    }
    assert(q0 % 256 == b[1] && q0 / 256 == q1) by {
        vstd::arithmetic::div_mod::lemma_fundamental_div_mod_converse(q0, 256, q1, b[1] as int);
    }
    assert(q1 % 256 == b[2] && q1 / 256 == b[3]) by {
        vstd::arithmetic::div_mod::lemma_fundamental_div_mod_converse(q1, 256, b[3] as int, b[2] as int);
    }
    assert(n / 65536 == q1) by {
        vstd::arithmetic::div_mod::lemma_div_denominator(n, 256, 256);
    }
    assert(n / 16777216 == b[3]) by {
        vstd::arithmetic::div_mod::lemma_div_denominator(n, 65536, 256);
    }
    assert(le_bytes(n as u32) =~= b);
}

/// Encodes `n` as four little-endian bytes.
pub fn encode_length(n: u32) -> (b: [u8; 4])
    ensures
        b@ == le_bytes(n),
{
    let b: [u8; 4] = [
        (n % 256) as u8,
        ((n / 256) % 256) as u8,
        ((n / 65536) % 256) as u8,
        (n / 16777216) as u8,
    ];
    assert(b@ =~= le_bytes(n));
    b
}

/// Decodes four little-endian bytes.
pub fn decode_length(b: [u8; 4]) -> (n: u32)
    ensures
        n == le_value(b@),
{
    (b[0] as u32) + 256 * (b[1] as u32) + 65536 * (b[2] as u32) + 16777216 * (b[3] as u32)
}

/// Puts `payload` in a frame: its length as four little-endian bytes, then
/// the payload itself. A payload whose length does not fit in four bytes is
/// refused with [`WireError::TooLarge`].
pub fn encode_frame(payload: &[u8]) -> (r: Result<Vec<u8>, WireError>)
    ensures
        r is Ok <==> payload@.len() <= u32::MAX,
        r matches Ok(out) ==> out@ == frame(payload@) && le_value(out@.take(4)) == payload@.len(),
        r matches Ok(out) ==> out@.len() == payload@.len() + 4 && out@.skip(4) == payload@,
        r matches Err(e) ==> e == WireError::TooLarge(payload@.len() as usize),
{
    let len = payload.len();
    if len as u64 > 0xffff_ffff {
        return Err(WireError::TooLarge(len));
    }
    let header = encode_length(len as u32);
    let mut out = slice_to_vec(&header);
    let mut body = slice_to_vec(payload);
    out.append(&mut body);
    proof {
        lemma_le_value_of_bytes(len as u32);
        assert(out@.take(4) =~= le_bytes(len as u32));
        assert(out@.skip(4) =~= payload@);
    }
    Ok(out)
}

/// Reads a length prefix: the announced payload length, or
/// [`WireError::TooLarge`] when it exceeds [`MAX_MESSAGE_SIZE`].
pub fn payload_len(header: [u8; 4]) -> (r: Result<usize, WireError>)
    ensures
        r == payload_len_spec(header@),
{
    let n = decode_length(header);
    if n as usize > MAX_MESSAGE_SIZE {
        Err(WireError::TooLarge(n as usize))
    } else {
        Ok(n as usize)
    }
}

/// Reads the frame at the start of `buf`: its payload and the number of bytes
/// the frame occupies.
pub fn read_frame(buf: &[u8]) -> (r: Result<(Vec<u8>, usize), WireError>)
    ensures
        match r {
            Ok((p, used)) => read_frame_spec(buf@) == Ok::<(Seq<u8>, nat), WireError>((p@, used as nat)),
            Err(e) => read_frame_spec(buf@) == Err::<(Seq<u8>, nat), WireError>(e),
        },
        r matches Ok((p, used)) ==> {
            &&& buf@.len() >= 4
            &&& p@.len() == le_value(buf@.take(4)) <= MAX_MESSAGE_SIZE
            &&& used == 4 + p@.len() <= buf@.len()
            &&& p@ == buf@.subrange(4, used as int)
        },
        buf@.len() < 4 ==> r == Err::<(Vec<u8>, usize), WireError>(WireError::Truncated),
        buf@.len() >= 4 && le_value(buf@.take(4)) <= MAX_MESSAGE_SIZE && buf@.len() < 4
            + le_value(buf@.take(4)) ==> r == Err::<(Vec<u8>, usize), WireError>(
            WireError::Truncated,
        ),
{
    if buf.len() < 4 {
        return Err(WireError::Truncated);
    }
    let header: [u8; 4] = [buf[0], buf[1], buf[2], buf[3]];
    assert(header@ =~= buf@.take(4));
    let n = match payload_len(header) {
        Ok(n) => n,
        Err(e) => return Err(e),
    };
    if buf.len() - 4 < n {
        return Err(WireError::Truncated);
    }
    let body = slice_subrange(buf, 4, 4 + n);
    Ok((slice_to_vec(body), 4 + n))
}

/// A reader gets back exactly the payload that a writer framed, whatever
/// follows the frame, when the payload is within [`MAX_MESSAGE_SIZE`].
pub proof fn lemma_frame_roundtrip(payload: Seq<u8>, rest: Seq<u8>)
    requires
        payload.len() <= MAX_MESSAGE_SIZE,
    ensures
        read_frame_spec(frame(payload) + rest) == Ok::<(Seq<u8>, nat), WireError>(
            (payload, payload.len() + 4),
        ),
        payload_len_spec(frame(payload).take(4)) == Ok::<usize, WireError>(payload.len() as usize),
{
    let buf = frame(payload) + rest;
    lemma_le_value_of_bytes(payload.len() as u32);
    assert(buf.take(4) =~= le_bytes(payload.len() as u32));
    assert(frame(payload).take(4) =~= le_bytes(payload.len() as u32));
    assert(buf.subrange(4, 4 + payload.len() as int) =~= payload);
}

/// What reading a frame gives, in terms of the input alone: a frame is read
/// exactly when the input holds a four-byte prefix announcing at most
/// [`MAX_MESSAGE_SIZE`] bytes and at least that many bytes after it; then the
/// payload is exactly the announced number of bytes after the prefix and the
/// frame occupies the prefix and the payload. An input too short for the
/// prefix, or for the announced payload, is `Truncated`.
pub proof fn lemma_read_frame_law(buf: Seq<u8>)
    ensures
        read_frame_spec(buf) is Ok <==> (buf.len() >= 4 && le_value(buf.take(4)) <= MAX_MESSAGE_SIZE
            && buf.len() >= 4 + le_value(buf.take(4))),
        read_frame_spec(buf) matches Ok((p, used)) ==> {
            &&& p.len() == le_value(buf.take(4))
            &&& used == 4 + p.len() <= buf.len()
            &&& p == buf.subrange(4, used as int)
        },
        buf.len() < 4 ==> read_frame_spec(buf) == Err::<(Seq<u8>, nat), WireError>(
            WireError::Truncated,
        ),
        buf.len() >= 4 && le_value(buf.take(4)) <= MAX_MESSAGE_SIZE && buf.len() < 4 + le_value(
            buf.take(4),
        ) ==> read_frame_spec(buf) == Err::<(Seq<u8>, nat), WireError>(WireError::Truncated),
{
}

/// A frame is the four little-endian bytes of the payload's length followed
/// by exactly the payload, and nothing else.
pub proof fn lemma_frame_law(payload: Seq<u8>)
    requires
        payload.len() <= u32::MAX,
    ensures
        frame(payload).len() == payload.len() + 4,
        le_value(frame(payload).take(4)) == payload.len(),
        frame(payload).skip(4) == payload,
        forall|i: int| 0 <= i < payload.len() ==> #[trigger] frame(payload)[4 + i] == payload[i],
{
    lemma_le_value_of_bytes(payload.len() as u32);
    assert(frame(payload).take(4) =~= le_bytes(payload.len() as u32));
    assert(frame(payload).skip(4) =~= payload);
}

/// A length prefix above [`MAX_MESSAGE_SIZE`] is refused, both alone and at
/// the start of any input.
pub proof fn lemma_oversized_refused(header: Seq<u8>, rest: Seq<u8>)
    requires
        header.len() == 4,
        le_value(header) > MAX_MESSAGE_SIZE,
    ensures
        payload_len_spec(header) == Err::<usize, WireError>(WireError::TooLarge(le_value(header) as usize)),
        read_frame_spec(header + rest) == Err::<(Seq<u8>, nat), WireError>(
            WireError::TooLarge(le_value(header) as usize),
        ),
{
    assert((header + rest).take(4) =~= header);
}

} // verus!

//! The framed transport of the control socket: every message is sent as its
//! length in bytes, an eight-byte big-endian number, followed by its UTF-8
//! bytes. The length is always explicit; nothing is guessed from content.
//!
//! A connection is modelled by the bytes that were written to it and not read
//! yet. Reading a frame consumes it from the front of those bytes.

use crate::text::from_utf8;
use vstd::prelude::*;
use vstd::string::*;
use vstd::utf8::{decode_utf8, encode_utf8, valid_utf8};

verus! {

/// The width of the length prefix, in bytes.
pub const HEADER_LEN: usize = 8;

/// Why no message could be read from a connection.
#[derive(Debug, Clone, Copy, PartialEq, Eq, Structural)]
pub enum FrameError {
    /// The bytes ended before the frame was complete.
    ConnectionClosed,
    /// The payload is not UTF-8.
    InvalidEncoding,
}

/// The eight bytes of `n`, most significant first.
pub open spec fn be_bytes(n: u64) -> Seq<u8> {
    seq![
        ((n as int / 0x100_0000_0000_0000) % 0x100) as u8,
        ((n as int / 0x1_0000_0000_0000) % 0x100) as u8,
        ((n as int / 0x100_0000_0000) % 0x100) as u8,
        ((n as int / 0x1_0000_0000) % 0x100) as u8,
        ((n as int / 0x100_0000) % 0x100) as u8,
        ((n as int / 0x1_0000) % 0x100) as u8,
        ((n as int / 0x100) % 0x100) as u8,
        (n as int % 0x100) as u8,
    ]
}

/// The number that the first eight bytes of `b` spell, most significant first.
pub open spec fn be_value(b: Seq<u8>) -> int {
    b[0] as int * 0x100_0000_0000_0000 + b[1] as int * 0x1_0000_0000_0000 + b[2] as int
        * 0x100_0000_0000 + b[3] as int * 0x1_0000_0000 + b[4] as int * 0x100_0000 + b[5] as int
        * 0x1_0000 + b[6] as int * 0x100 + b[7] as int
}

/// The frame that carries the text `message`.
pub open spec fn framed(message: Seq<char>) -> Seq<u8> {
    be_bytes(encode_utf8(message).len() as u64) + encode_utf8(message)
}

/// What reading one frame from the bytes `pending` comes to: the message and
/// the bytes that stay on the connection, or the reason why there is none.
pub open spec fn received(pending: Seq<u8>) -> Result<(Seq<char>, Seq<u8>), FrameError> {
    if pending.len() < 8 {
        Err(FrameError::ConnectionClosed)
    } else if pending.len() - 8 < be_value(pending) {
        Err(FrameError::ConnectionClosed)
    } else if !valid_utf8(pending.subrange(8, 8 + be_value(pending))) {
        Err(FrameError::InvalidEncoding)
    } else {
        Ok(
            (
                decode_utf8(pending.subrange(8, 8 + be_value(pending))),
                pending.skip(8 + be_value(pending)),
            ),
        )
    }
}

/// The bytes left on a connection after an attempt to read a frame from
/// `pending`. A frame that is cut short takes the whole rest with it; a complete
/// frame is consumed whether or not its payload decodes.
pub open spec fn remaining(pending: Seq<u8>) -> Seq<u8> {
    if pending.len() < 8 || pending.len() - 8 < be_value(pending) {
        Seq::empty()
    } else {
        pending.skip(8 + be_value(pending))
    }
}

/// A length survives being written as eight bytes and read back.
pub proof fn lemma_length_round_trip(n: u64)
    ensures
        be_bytes(n).len() == 8,
        be_value(be_bytes(n)) == n,
{
    let b = be_bytes(n);
    let m = n as int;
    let q1 = m / 0x100;
    let q2 = q1 / 0x100;
    let q3 = q2 / 0x100;
    let q4 = q3 / 0x100;
    let q5 = q4 / 0x100;
    let q6 = q5 / 0x100;
    let q7 = q6 / 0x100;
    assert(q2 == m / 0x1_0000);
    assert(q3 == m / 0x100_0000);
    assert(q4 == m / 0x1_0000_0000);
    assert(q5 == m / 0x100_0000_0000);
    assert(q6 == m / 0x1_0000_0000_0000);
    assert(q7 == m / 0x100_0000_0000_0000);
    assert(q7 < 0x100);
    assert(b[0] as int == q7 % 0x100);
    assert(b[1] as int == q6 % 0x100);
    assert(b[2] as int == q5 % 0x100);
    assert(b[3] as int == q4 % 0x100);
    assert(b[4] as int == q3 % 0x100);
    assert(b[5] as int == q2 % 0x100);
    assert(b[6] as int == q1 % 0x100);
    assert(b[7] as int == m % 0x100);
    assert(m == q1 * 0x100 + m % 0x100);
    assert(q1 == q2 * 0x100 + q1 % 0x100);
    assert(q2 == q3 * 0x100 + q2 % 0x100);
    assert(q3 == q4 * 0x100 + q3 % 0x100);
    assert(q4 == q5 * 0x100 + q4 % 0x100);
    assert(q5 == q6 * 0x100 + q5 % 0x100);
    assert(q6 == q7 * 0x100 + q6 % 0x100);
}

/// The value of eight bytes depends on those eight alone.
pub proof fn lemma_value_of_prefix(header: Seq<u8>, rest: Seq<u8>)
    requires
        header.len() == 8,
    ensures
        be_value(header + rest) == be_value(header),
        0 <= be_value(header) <= u64::MAX,
{
    let all = header + rest;
    assert(all[0] == header[0]);
    assert(all[1] == header[1]);
    assert(all[2] == header[2]);
    assert(all[3] == header[3]);
    assert(all[4] == header[4]);
    assert(all[5] == header[5]);
    assert(all[6] == header[6]);
    assert(all[7] == header[7]);
}

/// Framing loses nothing: a frame, followed by any other bytes, reads back as
/// the message it was made from, and leaves exactly those other bytes. This
/// holds of every text, the empty one and those with NUL characters included.
pub proof fn lemma_frame_round_trip(message: Seq<char>, rest: Seq<u8>)
    requires
        encode_utf8(message).len() <= u64::MAX,
    ensures
        received(framed(message) + rest) == Ok::<(Seq<char>, Seq<u8>), FrameError>(
            (message, rest),
        ),
        remaining(framed(message) + rest) == rest,
{
    let payload = encode_utf8(message);
    let n = payload.len() as u64;
    let header = be_bytes(n);
    let pending = framed(message) + rest;
    lemma_length_round_trip(n);
    assert(pending =~= header + (payload + rest));
    lemma_value_of_prefix(header, payload + rest);
    assert(be_value(pending) == payload.len());
    assert(pending.subrange(8, 8 + be_value(pending)) =~= payload);
    assert(pending.skip(8 + be_value(pending)) =~= rest);
    vstd::utf8::encode_utf8_valid_utf8(message);
    vstd::utf8::encode_utf8_decode_utf8(message);
}

/// The length prefix of a payload of `n` bytes.
pub fn length_prefix(n: u64) -> (header: [u8; 8])
    ensures
        header@ == be_bytes(n),
{
    let header: [u8; 8] = [
        ((n / 0x100_0000_0000_0000) % 0x100) as u8,
        ((n / 0x1_0000_0000_0000) % 0x100) as u8,
        ((n / 0x100_0000_0000) % 0x100) as u8,
        ((n / 0x1_0000_0000) % 0x100) as u8,
        ((n / 0x100_0000) % 0x100) as u8,
        ((n / 0x1_0000) % 0x100) as u8,
        ((n / 0x100) % 0x100) as u8,
        (n % 0x100) as u8,
    ];
    assert(header@ =~= be_bytes(n));
    header
}

/// The payload length that a length prefix announces.
pub fn payload_length(header: &[u8; 8]) -> (n: u64)
    ensures
        n == be_value(header@),
{
    header[0] as u64 * 0x100_0000_0000_0000 + header[1] as u64 * 0x1_0000_0000_0000 + header[2] as u64
        * 0x100_0000_0000 + header[3] as u64 * 0x1_0000_0000 + header[4] as u64 * 0x100_0000
        + header[5] as u64 * 0x1_0000 + header[6] as u64 * 0x100 + header[7] as u64
}

/// The frame that carries `message`: length prefix, then the UTF-8 bytes.
pub fn encode(message: &str) -> (frame: Vec<u8>)
    ensures
        frame@ == framed(message@),
        received(frame@) == Ok::<(Seq<char>, Seq<u8>), FrameError>((message@, Seq::empty())),
{
    let payload = message.as_bytes();
    proof {
        assert(payload@ == encode_utf8(message@));
        assert(payload@.len() == payload.len());
        lemma_frame_round_trip(message@, Seq::empty());
        assert(framed(message@) + Seq::<u8>::empty() =~= framed(message@));
    }
    let header = length_prefix(payload.len() as u64);
    let mut frame: Vec<u8> = Vec::new();
    let mut i: usize = 0;
    while i < 8
        invariant
            i <= 8,
            frame@ == header@.take(i as int),
        decreases 8 - i,
    {
        frame.push(header[i]);
        assert(header@.take(i + 1) =~= header@.take(i as int).push(header@[i as int]));
        i += 1;
    }
    assert(header@.take(8) =~= header@);
    let mut j: usize = 0;
    while j < payload.len()
        invariant
            j <= payload.len(),
            frame@ == header@ + payload@.take(j as int),
        decreases payload.len() - j,
    {
        frame.push(payload[j]);
        assert(payload@.take(j + 1) =~= payload@.take(j as int).push(payload@[j as int]));
        j += 1;
    }
    assert(payload@.take(payload.len() as int) =~= payload@);
    frame
}

/// Decodes the payload of a frame. What is not UTF-8 is `InvalidEncoding`.
pub fn decode_payload(payload: Vec<u8>) -> (r: Result<String, FrameError>)
    ensures
        r is Ok <==> valid_utf8(payload@),
        r is Ok ==> r->Ok_0@ == decode_utf8(payload@),
        r is Err ==> r->Err_0 == FrameError::InvalidEncoding,
{
    match from_utf8(payload) {
        Some(text) => Ok(text),
        None => Err(FrameError::InvalidEncoding),
    }
}

/// Writes `message` to the connection as one frame, after what is pending.
pub fn send(conn: &mut Vec<u8>, message: String)
    ensures
        final(conn)@ == old(conn)@ + framed(message@),
        old(conn)@.len() == 0 ==> received(final(conn)@) == Ok::<(Seq<char>, Seq<u8>), FrameError>(
            (message@, Seq::empty()),
        ),
{
    let mut frame = encode(message.as_str());
    conn.append(&mut frame);
    proof {
        if old(conn)@.len() == 0 {
            assert(conn@ =~= framed(message@));
        }
    }
}

/// Reads one frame from the front of the connection and decodes its message.
///
/// The length prefix is read first, then exactly as many bytes as it announces.
/// Where the pending bytes end before either is complete the connection counts
/// as closed, and nothing stays pending. A complete frame is consumed even when
/// its payload turns out not to be UTF-8.
pub fn receive(conn: &mut Vec<u8>) -> (r: Result<String, FrameError>)
    ensures
        match received(old(conn)@) {
            Ok((message, rest)) => r is Ok && r->Ok_0@ == message,
            Err(e) => r == Err::<String, FrameError>(e),
        },
        final(conn)@ == remaining(old(conn)@),
{
    if conn.len() < HEADER_LEN {
        conn.clear();
        return Err(FrameError::ConnectionClosed);
    }
    let header: [u8; 8] = [
        conn[0],
        conn[1],
        conn[2],
        conn[3],
        conn[4],
        conn[5],
        conn[6],
        conn[7],
    ];
    let announced = payload_length(&header);
    if announced > (conn.len() - HEADER_LEN) as u64 {
        conn.clear();
        return Err(FrameError::ConnectionClosed);
    }
    let length = announced as usize;
    let mut rest = conn.split_off(8 + length);
    let payload = conn.split_off(8);
    conn.clear();
    conn.append(&mut rest);
    proof {
        assert(payload@ =~= old(conn)@.subrange(8, 8 + be_value(old(conn)@)));
        assert(conn@ =~= old(conn)@.skip(8 + be_value(old(conn)@)));
    }
    decode_payload(payload)
}

} // verus!

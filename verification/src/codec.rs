//! The line codec: frames a raw serial byte stream into discrete text lines.
//!
//! Incoming bytes accumulate in a `bytes::BytesMut`; a frame is everything up
//! to and including the first line feed, and must decode as UTF-8. Outgoing
//! lines are the line's bytes followed by a carriage return and a line feed
//! (the device expects CRLF-terminated commands but replies with bare
//! LF-terminated lines).

use crate::text::bytes_to_string;
use bytes::BytesMut;
use vstd::prelude::*;
use vstd::string::StringSliceAdditionalSpecFns;
use vstd::utf8::decode_utf8;
use vstd::utf8::valid_utf8;

verus! {

pub const CARRIAGE_RETURN: u8 = 13;

pub const LINE_FEED: u8 = 10;

#[verifier::external_type_specification]
#[verifier::external_body]
pub struct ExBytesMut(BytesMut);

/// The bytes that a buffer holds, in order.
pub uninterp spec fn buf_bytes(b: BytesMut) -> Seq<u8>;

/// Relies on BytesMut::len: the number of bytes in the buffer.
#[verifier::external_body]
fn buf_len(b: &BytesMut) -> (r: usize)
    ensures
        r == buf_bytes(*b).len(),
{
    b.len()
}

/// Relies on the slice view of BytesMut (its Deref impl): indexing yields the
/// byte at that position.
#[verifier::external_body]
fn buf_byte(b: &BytesMut, i: usize) -> (r: u8)
    requires
        i < buf_bytes(*b).len(),
    ensures
        r == buf_bytes(*b)[i as int],
{
    b[i]
}

/// Relies on BytesMut::split_to: the returned buffer holds the first `at`
/// bytes and the argument keeps the rest. Panics when `at` exceeds the
/// length, so that case is excluded.
#[verifier::external_body]
fn buf_split_to(b: &mut BytesMut, at: usize) -> (r: BytesMut)
    requires
        at <= buf_bytes(*old(b)).len(),
    ensures
        buf_bytes(r) == buf_bytes(*old(b)).take(at as int),
        buf_bytes(*final(b)) == buf_bytes(*old(b)).skip(at as int),
{
    b.split_to(at)
}

/// Relies on the slice view of BytesMut (its Deref impl): copying it out
/// yields exactly the buffer's bytes.
#[verifier::external_body]
fn buf_to_vec(b: &BytesMut) -> (r: Vec<u8>)
    ensures
        r@ == buf_bytes(*b),
{
    b.as_ref().to_vec()
}

/// Relies on BytesMut::reserve: it grows capacity and leaves the contents
/// alone. Panics when the new capacity overflows, so that case is excluded.
#[verifier::external_body]
fn buf_reserve(b: &mut BytesMut, additional: usize)
    requires
        buf_bytes(*old(b)).len() + additional <= usize::MAX,
    ensures
        buf_bytes(*final(b)) == buf_bytes(*old(b)),
{
    b.reserve(additional)
}

/// Relies on BytesMut::extend_from_slice: it appends the slice's bytes.
#[verifier::external_body]
fn buf_put_slice(b: &mut BytesMut, s: &[u8])
    requires
        buf_bytes(*old(b)).len() + s@.len() <= usize::MAX,
    ensures
        buf_bytes(*final(b)) == buf_bytes(*old(b)) + s@,
{
    b.extend_from_slice(s)
}

/// Relies on BufMut::put_u8 for BytesMut: it appends the one byte.
#[verifier::external_body]
fn buf_put_u8(b: &mut BytesMut, v: u8)
    requires
        buf_bytes(*old(b)).len() + 1 <= usize::MAX,
    ensures
        buf_bytes(*final(b)) == buf_bytes(*old(b)).push(v),
{
    bytes::BufMut::put_u8(b, v)
}

/// True when position `n` holds the first line feed of `s`.
pub open spec fn is_first_line_feed(s: Seq<u8>, n: int) -> bool {
    &&& 0 <= n < s.len()
    &&& s[n] == LINE_FEED
    &&& forall|j: int| 0 <= j < n ==> s[j] != LINE_FEED
}

/// True when the buffer holds at least one line feed, that is one full frame.
pub open spec fn has_line_feed(s: Seq<u8>) -> bool {
    exists|n: int| 0 <= n < s.len() && s[n] == LINE_FEED
}

/// The position of the first line feed (meaningful when one exists).
pub open spec fn first_line_feed(s: Seq<u8>) -> int {
    choose|n: int| is_first_line_feed(s, n)
}

/// The first line feed position is unique, so `first_line_feed` returns it.
proof fn lemma_first_line_feed_unique(s: Seq<u8>, n: int)
    requires
        is_first_line_feed(s, n),
    ensures
        first_line_feed(s) == n,
{
    let m = first_line_feed(s);
    assert(is_first_line_feed(s, m));
    if m < n {
        assert(s[m] != LINE_FEED);
    }
    if n < m {
        assert(s[n] != LINE_FEED);
    }
}

/// The error of the decode direction: a complete frame whose bytes are not
/// valid UTF-8. The stream cannot be resynchronized past it.
#[derive(Clone, Copy, Debug, PartialEq, Eq, Structural)]
pub enum DecodeError {
    InvalidUtf8,
}

/// Finds the first line feed in the buffer, if any.
fn find_line_feed(src: &BytesMut) -> (r: Option<usize>)
    ensures
        (r matches Some(n) ==> is_first_line_feed(buf_bytes(*src), n as int)),
        (r matches Some(n) ==> n < buf_bytes(*src).len() <= usize::MAX),
        r is None ==> !has_line_feed(buf_bytes(*src)),
{
    let len = buf_len(src);
    let mut i: usize = 0;
    while i < len
        invariant
            i <= len,
            len == buf_bytes(*src).len(),
            forall|j: int| 0 <= j < i ==> buf_bytes(*src)[j] != LINE_FEED,
        decreases len - i,
    {
        if buf_byte(src, i) == LINE_FEED {
            return Some(i);
        }
        i = i + 1;
    }
    None
}

/// The stateless line codec shared by the serial connection's two directions.
pub struct LineCodec;

impl LineCodec {
    /// Scans the accumulated bytes for a full frame. Without a line feed it
    /// consumes nothing and asks for more bytes (`Ok(None)`). Otherwise it
    /// consumes everything up to and including the first line feed and yields
    /// it as text, or fails if those bytes are not valid UTF-8.
    pub fn decode(&mut self, src: &mut BytesMut) -> (r: Result<Option<String>, DecodeError>)
        ensures
            !has_line_feed(buf_bytes(*old(src))) ==> (buf_bytes(*final(src)) == buf_bytes(
                *old(src),
            ) && r matches Ok(None)),
            has_line_feed(buf_bytes(*old(src))) ==> ({
                let n = first_line_feed(buf_bytes(*old(src)));
                let frame = buf_bytes(*old(src)).take(n + 1);
                &&& is_first_line_feed(buf_bytes(*old(src)), n)
                &&& buf_bytes(*final(src)) == buf_bytes(*old(src)).skip(n + 1)
                &&& (valid_utf8(frame) ==> (r matches Ok(Some(line)) && line@ == decode_utf8(
                    frame,
                )))
                &&& (!valid_utf8(frame) ==> r == Result::<
                    Option<String>,
                    DecodeError,
                >::Err(DecodeError::InvalidUtf8))
            }),
    {
        match find_line_feed(src) {
            None => Ok(None),
            Some(n) => {
                proof {
                    lemma_first_line_feed_unique(buf_bytes(*src), n as int);
                }
                let line = buf_split_to(src, n + 1);
                let bytes = buf_to_vec(&line);
                match bytes_to_string(bytes) {
                    Some(s) => Ok(Some(s)),
                    None => Err(DecodeError::InvalidUtf8),
                }
            },
        }
    }

    /// Appends one outgoing line to the write buffer: the line's bytes, then
    /// a carriage return, then a line feed.
    pub fn encode(&mut self, item: &str, dst: &mut BytesMut)
        requires
            buf_bytes(*old(dst)).len() + item.spec_bytes().len() + 2 <= usize::MAX,
        ensures
            buf_bytes(*final(dst)) == buf_bytes(*old(dst)) + item.spec_bytes() + seq![
                CARRIAGE_RETURN,
                LINE_FEED,
            ],
    {
        let bytes = item.as_bytes();
        buf_reserve(dst, bytes.len());
        buf_put_slice(dst, bytes);
        buf_put_u8(dst, CARRIAGE_RETURN);
        buf_put_u8(dst, LINE_FEED);
        proof {
            assert(buf_bytes(*dst) =~= buf_bytes(*old(dst)) + item.spec_bytes() + seq![
                CARRIAGE_RETURN,
                LINE_FEED,
            ]);
        }
    }
}

} // verus!

//! Framing of the viewer stream: each frame goes out as one chunk, behind a
//! boundary line, a content type, the time the stream started and the time
//! the frame was sent.

use vstd::prelude::*;
use vstd::string::*;
use crate::bytes::append_bytes;

verus! {

/// The decimal digits of a number, as ASCII, most significant first.
pub open spec fn digits(n: nat) -> Seq<u8>
    decreases n,
{
    if n < 10 {
        seq![(48 + n) as u8]
    } else {
        digits(n / 10).push((48 + n % 10) as u8)
    }
}

/// A text set to the right of a field of `width` bytes, with spaces before
/// it; a text that is wider is left as it is.
pub open spec fn padded(text: Seq<u8>, width: nat) -> Seq<u8> {
    if text.len() >= width {
        text
    } else {
        Seq::new((width - text.len()) as nat, |i: int| 32u8) + text
    }
}

/// A time in milliseconds as it stands in the stream's headers: in decimal,
/// in a field of at least six bytes.
pub open spec fn timestamp_text(in_ms: u64) -> Seq<u8> {
    padded(digits(in_ms as nat), 6)
}

/// The bytes of a text of ASCII characters.
pub open spec fn ascii(text: Seq<char>) -> Seq<u8> {
    Seq::new(text.len(), |i: int| text[i] as u8)
}

/// What stands in front of every frame: the boundary marker, the content
/// type, and the time at which the stream started.
pub open spec fn boundary_spec(start_ms: u64) -> Seq<u8> {
    ascii("contentboundary"@) + ascii("\r\n"@) + ascii("Content-Type: image/jpeg"@) + ascii(
        "\r\n"@,
    ) + ascii("X-StartTime: "@) + timestamp_text(start_ms)
}

/// One chunk of the stream: the boundary, the time at which the frame is
/// sent, an empty line, and the frame's bytes.
pub open spec fn chunk_spec(boundary: Seq<u8>, now_ms: u64, frame: Seq<u8>) -> Seq<u8> {
    boundary + ascii("\r\nX-Timestamp: "@) + timestamp_text(now_ms) + ascii("\r\n\r\n"@) + frame
}

/// The milliseconds in a time given as whole seconds and the nanoseconds
/// of the second under way, where they fit in 64 bits.
pub open spec fn millis_spec(secs: u64, subsec_nanos: u32) -> Option<u64> {
    let total = secs * 1000 + subsec_nanos / 1_000_000;
    if total <= u64::MAX {
        Some(total as u64)
    } else {
        None
    }
}

/// Turns a time since the epoch, as whole seconds and nanoseconds, into
/// milliseconds; fractions of a millisecond are cut off.
pub fn epoch_millis(secs: u64, subsec_nanos: u32) -> (in_ms: Option<u64>)
    ensures
        in_ms == millis_spec(secs, subsec_nanos),
{
    let part: u64 = (subsec_nanos / 1_000_000) as u64;
    match secs.checked_mul(1000) {
        None => None,
        Some(whole) => whole.checked_add(part),
    }
}

fn append_text(buf: &mut Vec<u8>, text: &str)
    requires
        is_ascii(text),
    ensures
        final(buf)@ == old(buf)@ + ascii(text@),
{
    let bytes = text.as_bytes();
    proof {
        is_ascii_spec_bytes(text);
        assert(bytes@ =~= ascii(text@));
    }
    append_bytes(buf, bytes);
}

/// Renders a time in milliseconds for the stream's headers.
pub fn format_timestamp(in_ms: u64) -> (text: Vec<u8>)
    ensures
        text@ == timestamp_text(in_ms),
{
    let mut reversed: Vec<u8> = Vec::new();
    let mut n: u64 = in_ms;
    reversed.push(48 + (n % 10) as u8);
    n = n / 10;
    assert(digits(in_ms as nat) =~= (if n > 0 {
        digits(n as nat)
    } else {
        Seq::<u8>::empty()
    }) + reversed@.reverse());
    while n > 0
        invariant
            reversed@.len() >= 1,
            digits(in_ms as nat) == (if n > 0 {
                digits(n as nat)
            } else {
                Seq::<u8>::empty()
            }) + reversed@.reverse(),
        decreases n,
    {
        let ghost before = reversed@;
        let ghost m = n;
        reversed.push(48 + (n % 10) as u8);
        n = n / 10;
        proof {
            let d = (48 + m % 10) as u8;
            assert(reversed@.reverse() =~= seq![d] + before.reverse());
            assert(digits(m as nat) =~= (if n > 0 {
                digits(n as nat)
            } else {
                Seq::<u8>::empty()
            }) + seq![d]);
            assert(digits(in_ms as nat) =~= (if n > 0 {
                digits(n as nat)
            } else {
                Seq::<u8>::empty()
            }) + reversed@.reverse());
        }
    }
    assert(digits(in_ms as nat) =~= reversed@.reverse());
    let mut text: Vec<u8> = Vec::new();
    let count = reversed.len();
    let mut spaces: usize = 0;
    while count < 6 && spaces < 6 - count
        invariant
            count == reversed@.len(),
            spaces + count <= 6 || spaces == 0,
            text@ == Seq::new(spaces as nat, |i: int| 32u8),
        decreases 6 - spaces,
    {
        text.push(32);
        spaces += 1;
        assert(text@ =~= Seq::new(spaces as nat, |i: int| 32u8));
    }
    let ghost lead = text@;
    let mut i: usize = count;
    while i > 0
        invariant
            i <= count,
            count == reversed@.len(),
            text@ == lead + reversed@.reverse().subrange(0, count - i),
        decreases i,
    {
        i -= 1;
        text.push(reversed[i]);
        assert(text@ =~= lead + reversed@.reverse().subrange(0, count - i));
    }
    assert(reversed@.reverse().subrange(0, count as int) =~= reversed@.reverse());
    assert(text@ =~= timestamp_text(in_ms));
    text
}

/// Builds what stands in front of every frame of a stream that started at
/// `start_ms`.
pub fn stream_boundary(start_ms: u64) -> (boundary: Vec<u8>)
    ensures
        boundary@ == boundary_spec(start_ms),
{
    proof {
        reveal_strlit("contentboundary");
        reveal_strlit("\r\n");
        reveal_strlit("Content-Type: image/jpeg");
        reveal_strlit("X-StartTime: ");
    }
    let mut boundary: Vec<u8> = Vec::new();
    append_text(&mut boundary, "contentboundary");
    append_text(&mut boundary, "\r\n");
    append_text(&mut boundary, "Content-Type: image/jpeg");
    append_text(&mut boundary, "\r\n");
    append_text(&mut boundary, "X-StartTime: ");
    let stamp = format_timestamp(start_ms);
    append_bytes(&mut boundary, stamp.as_slice());
    boundary
}

/// Wraps one frame for the stream, stamped with the time `now_ms`.
pub fn frame_chunk(boundary: &[u8], now_ms: u64, frame: &[u8]) -> (chunk: Vec<u8>)
    ensures
        chunk@ == chunk_spec(boundary@, now_ms, frame@),
{
    proof {
        reveal_strlit("\r\nX-Timestamp: ");
        reveal_strlit("\r\n\r\n");
    }
    let mut chunk: Vec<u8> = Vec::new();
    append_bytes(&mut chunk, boundary);
    append_text(&mut chunk, "\r\nX-Timestamp: ");
    let stamp = format_timestamp(now_ms);
    append_bytes(&mut chunk, stamp.as_slice());
    append_text(&mut chunk, "\r\n\r\n");
    append_bytes(&mut chunk, frame);
    chunk
}

} // verus!

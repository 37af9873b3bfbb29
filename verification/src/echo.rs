//! The length-prefixed echo protocol, shared by the plaintext and the
//! TLS-wrapped byte streams.
//!
//! A request frame is a little-endian `u32` length followed by that many
//! payload bytes; a length of zero is the peer's disconnect signal. The
//! response to a non-empty frame is the arrival timestamp, the send
//! timestamp (both `i64` little-endian nanoseconds), and the payload
//! echoed verbatim. The byte-stream loop itself lives outside the
//! library; everything it decides or builds is here.

use vstd::prelude::*;
use vstd::bytes::{spec_u32_from_le_bytes, spec_u64_to_le_bytes, u32_from_le_bytes, u64_to_le_bytes};
use crate::clock::Clock;

verus! {

/// The two's-complement image of a signed timestamp in a `u64`.
pub open spec fn i64_as_u64(x: i64) -> u64 {
    if x >= 0 {
        x as u64
    } else {
        (x + 0x1_0000_0000_0000_0000) as u64
    }
}

/// The wire image of a timestamp: 8 bytes, little-endian two's complement.
pub open spec fn spec_i64_to_le_bytes(x: i64) -> Seq<u8> {
    spec_u64_to_le_bytes(i64_as_u64(x))
}

/// The length field carried by a 4-byte frame header.
pub open spec fn frame_len_of(header: Seq<u8>) -> u32 {
    spec_u32_from_le_bytes(header)
}

/// What the handler does once it has a frame header.
#[derive(Clone, Copy, Debug, PartialEq, Eq, Structural)]
pub enum HeaderAction {
    /// The peer sent the zero-length sentinel: close, send nothing back.
    Close,
    /// A payload of this many bytes follows and is to be echoed.
    ReadPayload(u32),
}

/// Decide on a frame header: the zero length is exactly the disconnect
/// sentinel, every other length announces a payload of that many bytes.
pub fn classify_header(header: &[u8]) -> (r: HeaderAction)
    requires
        header@.len() == 4,
    ensures
        r is Close <==> frame_len_of(header@) == 0,
        r matches HeaderAction::ReadPayload(len) ==> len == frame_len_of(header@) && len > 0,
{
    let len = u32_from_le_bytes(header);
    if len == 0 {
        HeaderAction::Close
    } else {
        HeaderAction::ReadPayload(len)
    }
}

/// A timestamp as its 8 wire bytes.
pub fn i64_to_le_bytes(x: i64) -> (r: Vec<u8>)
    ensures
        r@ == spec_i64_to_le_bytes(x),
        r@.len() == 8,
{
    let u: u64 = if x >= 0 {
        x as u64
    } else {
        let wide: i128 = (x as i128) + 0x1_0000_0000_0000_0000;
        wide as u64
    };
    u64_to_le_bytes(u)
}

/// The full response to one echoed frame: both timestamps, then the
/// payload verbatim.
pub fn build_echo_response(recv_ns: i64, send_ns: i64, payload: &[u8]) -> (r: Vec<u8>)
    requires
        payload@.len() <= usize::MAX - 16,
    ensures
        r@.len() == 16 + payload@.len(),
        r@.subrange(0, 8) == spec_i64_to_le_bytes(recv_ns),
        r@.subrange(8, 16) == spec_i64_to_le_bytes(send_ns),
        r@.skip(16) == payload@,
{
    let mut out = i64_to_le_bytes(recv_ns);
    let mut send_bytes = i64_to_le_bytes(send_ns);
    out.append(&mut send_bytes);
    let n = payload.len();
    let mut i: usize = 0;
    while i < n
        invariant
            i <= n,
            n == payload@.len(),
            n <= usize::MAX - 16,
            out@ == spec_i64_to_le_bytes(recv_ns) + spec_i64_to_le_bytes(send_ns)
                + payload@.take(i as int),
        decreases n - i,
    {
        proof {
            assert(payload@.take(i as int + 1) =~= payload@.take(i as int) + seq![payload@[i as int]]);
        }
        out.push(payload[i]);
        i = i + 1;
    }
    proof {
        assert(payload@.take(n as int) =~= payload@);
        assert(out@.subrange(0, 8) =~= spec_i64_to_le_bytes(recv_ns));
        assert(out@.subrange(8, 16) =~= spec_i64_to_le_bytes(send_ns));
        assert(out@.skip(16) =~= payload@);
    }
    out
}

/// Finish one frame whose payload has arrived: capture the send timestamp
/// and build the response. The arrival timestamp must be an earlier
/// reading of the same clock, so the two timestamps in the response are
/// ordered: the receive timestamp never exceeds the send timestamp.
pub fn echo_reply(clock: &mut Clock, recv_ns: i64, payload: &[u8]) -> (r: Vec<u8>)
    requires
        0 <= recv_ns,
        recv_ns <= old(clock).last_spec(),
        payload@.len() <= usize::MAX - 16,
    ensures
        r@.len() == 16 + payload@.len(),
        r@.skip(16) == payload@,
        r@.subrange(0, 8) == spec_i64_to_le_bytes(recv_ns),
        r@.subrange(8, 16) == spec_i64_to_le_bytes(final(clock).last_spec() as i64),
        recv_ns <= final(clock).last_spec(),
{
    let send_ns = clock.now_ns();
    build_echo_response(recv_ns, send_ns, payload)
}

} // verus!

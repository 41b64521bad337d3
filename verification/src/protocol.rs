//! Framing of messages on the plugin socket.
//!
//! A frame is a big-endian `u32` length followed by exactly that many bytes
//! of payload. There is no resynchronisation: a stream is a plain
//! concatenation of frames, and a truncated frame means the peer is gone.

use crate::error::{PluginError, PluginResult};
use vstd::prelude::*;
use vstd::string::StringExecFns;

verus! {

/// Number of bytes in the length prefix of a frame.
pub const LENGTH_PREFIX_BYTES: usize = 4;

/// Largest payload a frame can carry.
pub const MAX_PAYLOAD_BYTES: u32 = 0xffff_ffff;

/// The four bytes that spell `n` in big-endian order.
pub open spec fn length_prefix(n: nat) -> Seq<u8> {
    seq![
        ((n / 0x100_0000) % 0x100) as u8,
        ((n / 0x1_0000) % 0x100) as u8,
        ((n / 0x100) % 0x100) as u8,
        (n % 0x100) as u8,
    ]
}

/// The number spelt by the first four bytes of `bytes`, read big-endian.
pub open spec fn prefix_value(bytes: Seq<u8>) -> nat
    recommends
        bytes.len() >= 4,
{
    (bytes[0] as nat) * 0x100_0000 + (bytes[1] as nat) * 0x1_0000 + (bytes[2] as nat) * 0x100
        + (bytes[3] as nat)
}

/// The frame that carries `payload`.
pub open spec fn frame_of(payload: Seq<u8>) -> Seq<u8>
    recommends
        payload.len() <= MAX_PAYLOAD_BYTES,
{
    length_prefix(payload.len()) + payload
}

/// Whether `bytes` starts with a whole frame.
pub open spec fn has_frame(bytes: Seq<u8>) -> bool {
    bytes.len() >= 4 && bytes.len() >= 4 + prefix_value(bytes)
}

/// The payload of the frame at the start of `bytes`.
pub open spec fn first_payload(bytes: Seq<u8>) -> Seq<u8>
    recommends
        has_frame(bytes),
{
    bytes.subrange(4, 4 + prefix_value(bytes) as int)
}

/// What is left of `bytes` behind its first frame.
pub open spec fn after_first(bytes: Seq<u8>) -> Seq<u8>
    recommends
        has_frame(bytes),
{
    bytes.subrange(4 + prefix_value(bytes) as int, bytes.len() as int)
}

/// The concatenation of the frames of `payloads`, in order.
pub open spec fn stream_of(payloads: Seq<Seq<u8>>) -> Seq<u8>
    decreases payloads.len(),
{
    if payloads.len() == 0 {
        Seq::empty()
    } else {
        frame_of(payloads[0]) + stream_of(payloads.drop_first())
    }
}

/// The payloads of all whole frames at the start of `bytes`, in order.
pub open spec fn payloads_of(bytes: Seq<u8>) -> Seq<Seq<u8>>
    decreases bytes.len(),
{
    if has_frame(bytes) {
        seq![first_payload(bytes)] + payloads_of(after_first(bytes))
    } else {
        Seq::empty()
    }
}

/// What remains of `bytes` once every whole frame has been taken off.
pub open spec fn leftover_of(bytes: Seq<u8>) -> Seq<u8>
    decreases bytes.len(),
{
    if has_frame(bytes) {
        leftover_of(after_first(bytes))
    } else {
        bytes
    }
}

/// The result of looking for a frame at the start of a buffer.
#[derive(Debug, PartialEq, Eq)]
pub enum FrameRead {
    /// A whole frame was there: its payload, and how many bytes it took.
    Complete { payload: Vec<u8>, consumed: usize },
    /// The buffer ends inside the frame: the connection is closed.
    Closed,
}

/// Reading a length prefix and writing it back gives the same four bytes.
pub proof fn lemma_prefix_of_value(bytes: Seq<u8>)
    requires
        bytes.len() >= 4,
    ensures
        length_prefix(prefix_value(bytes)) == bytes.take(4),
        prefix_value(bytes) <= MAX_PAYLOAD_BYTES,
{
    let n = prefix_value(bytes);
    let b0 = bytes[0] as nat;
    let b1 = bytes[1] as nat;
    let b2 = bytes[2] as nat;
    let b3 = bytes[3] as nat;
    assert(n / 0x100_0000 == b0 && (n / 0x1_0000) % 0x100 == b1 && (n / 0x100) % 0x100 == b2 && n
        % 0x100 == b3) by (nonlinear_arith)
        requires
            n == b0 * 0x100_0000 + b1 * 0x1_0000 + b2 * 0x100 + b3,
            b0 < 0x100,
            b1 < 0x100,
            b2 < 0x100,
            b3 < 0x100,
    ;
    assert(length_prefix(n) =~= bytes.take(4));
}

/// Writing a length prefix and reading it back gives the same number.
pub proof fn lemma_value_of_prefix(n: nat)
    requires
        n <= MAX_PAYLOAD_BYTES,
    ensures
        prefix_value(length_prefix(n)) == n,
        length_prefix(n).len() == 4,
{
    assert(((n / 0x100_0000) % 0x100) * 0x100_0000 + ((n / 0x1_0000) % 0x100) * 0x1_0000 + ((n
        / 0x100) % 0x100) * 0x100 + (n % 0x100) == n) by (nonlinear_arith)
        requires
            n <= 0xffff_ffff,
    ;
}

/// A frame followed by anything decodes to its payload, and the rest is
/// what followed.
pub proof fn lemma_decode_frame_of(payload: Seq<u8>, rest: Seq<u8>)
    requires
        payload.len() <= MAX_PAYLOAD_BYTES,
    ensures
        has_frame(frame_of(payload) + rest),
        first_payload(frame_of(payload) + rest) == payload,
        after_first(frame_of(payload) + rest) == rest,
{
    lemma_value_of_prefix(payload.len());
    let bytes = frame_of(payload) + rest;
    let prefix = length_prefix(payload.len());
    assert(bytes[0] == prefix[0] && bytes[1] == prefix[1] && bytes[2] == prefix[2] && bytes[3]
        == prefix[3]);
    assert(prefix_value(bytes) == prefix_value(prefix));
    assert(first_payload(bytes) =~= payload);
    assert(after_first(bytes) =~= rest);
}

/// Encoding what was decoded gives back the bytes of the frame: for every
/// buffer that starts with a whole frame, the frame of its first payload is
/// the buffer's own beginning.
pub proof fn lemma_encode_decoded(bytes: Seq<u8>)
    requires
        has_frame(bytes),
    ensures
        first_payload(bytes).len() <= MAX_PAYLOAD_BYTES,
        frame_of(first_payload(bytes)) == bytes.take(4 + prefix_value(bytes) as int),
        frame_of(first_payload(bytes)) + after_first(bytes) == bytes,
        bytes.len() == 4 + prefix_value(bytes) ==> frame_of(first_payload(bytes)) == bytes,
{
    lemma_prefix_of_value(bytes);
    let n = prefix_value(bytes);
    assert(frame_of(first_payload(bytes)) =~= bytes.take(4 + n as int));
    assert(frame_of(first_payload(bytes)) + after_first(bytes) =~= bytes);
    if bytes.len() == 4 + n {
        assert(bytes.take(4 + n as int) =~= bytes);
    }
}

/// Frames arrive in the order sent: a stream made of the frames of
/// `payloads`, in that order, decodes to exactly `payloads`, with nothing
/// left over.
pub proof fn lemma_frames_keep_order(payloads: Seq<Seq<u8>>)
    requires
        forall|i: int| 0 <= i < payloads.len() ==> (#[trigger] payloads[i]).len() <= MAX_PAYLOAD_BYTES,
    ensures
        payloads_of(stream_of(payloads)) == payloads,
        leftover_of(stream_of(payloads)) == Seq::<u8>::empty(),
    decreases payloads.len(),
{
    if payloads.len() == 0 {
        assert(!has_frame(stream_of(payloads)));
        assert(payloads_of(stream_of(payloads)) =~= payloads);
    } else {
        let tail = payloads.drop_first();
        assert forall|i: int| 0 <= i < tail.len() implies (#[trigger] tail[i]).len()
            <= MAX_PAYLOAD_BYTES by {
            assert(tail[i] == payloads[i + 1]);
        }
        lemma_frames_keep_order(tail);
        lemma_decode_frame_of(payloads[0], stream_of(tail));
        assert(payloads_of(stream_of(payloads)) =~= seq![payloads[0]] + tail);
        assert(seq![payloads[0]] + tail =~= payloads);
    }
}

/// The payloads held by a list of buffers.
pub open spec fn payload_views(frames: Seq<Vec<u8>>) -> Seq<Seq<u8>> {
    frames.map_values(|frame: Vec<u8>| frame@)
}

/// The whole frames found at the start of a buffer.
#[derive(Debug, PartialEq, Eq)]
pub struct FrameBatch {
    /// The payloads of the frames, in the order in which they stood.
    pub payloads: Vec<Vec<u8>>,
    /// How many bytes the frames took.
    pub consumed: usize,
}

/// The codec of the plugin socket. It holds no state: every frame stands on
/// its own.
#[derive(Debug, PartialEq, Eq)]
pub struct PluginProtocol;

impl PluginProtocol {
    pub fn new() -> (p: Self)
        ensures
            p == PluginProtocol,
    {
        PluginProtocol
    }

    /// The payload length announced by a length prefix.
    pub fn frame_length(&self, header: &[u8; 4]) -> (n: usize)
        ensures
            n == prefix_value(header@),
    {
        let b0: u32 = header[0] as u32;
        let b1: u32 = header[1] as u32;
        let b2: u32 = header[2] as u32;
        let b3: u32 = header[3] as u32;
        let n: u32 = b0 * 0x100_0000 + b1 * 0x1_0000 + b2 * 0x100 + b3;
        n as usize
    }

    /// Frames `payload` for sending: the length prefix, then the payload.
    ///
    /// A payload whose length does not fit the prefix cannot be framed and
    /// is refused with a protocol error.
    pub fn encode_frame(&self, payload: &[u8]) -> (r: PluginResult<Vec<u8>>)
        ensures
            payload@.len() <= MAX_PAYLOAD_BYTES ==> r is Ok && r->Ok_0@ == frame_of(payload@),
            payload@.len() > MAX_PAYLOAD_BYTES ==> r is Err && r->Err_0 is Protocol,
    {
        let len: usize = payload.len();
        if len > 0xffff_ffff {
            return Err(PluginError::Protocol(String::from_str("payload too large for a frame")));
        }
        let n: u32 = len as u32;
        let mut out: Vec<u8> = Vec::new();
        out.push(((n / 0x100_0000) % 0x100) as u8);
        out.push(((n / 0x1_0000) % 0x100) as u8);
        out.push(((n / 0x100) % 0x100) as u8);
        out.push((n % 0x100) as u8);
        assert(out@ =~= length_prefix(len as nat));
        let mut i: usize = 0;
        while i < len
            invariant
                i <= len,
                len == payload@.len(),
                out@ == length_prefix(len as nat) + payload@.take(i as int),
            decreases len - i,
        {
            out.push(payload[i]);
            assert(payload@.take(i as int + 1) =~= payload@.take(i as int).push(payload@[i as int]));
            i = i + 1;
        }
        assert(payload@.take(len as int) =~= payload@);
        Ok(out)
    }

    /// Looks for a frame at the start of `bytes`.
    ///
    /// A buffer that ends before the frame does means the peer closed the
    /// connection; it is reported as such, not as an error.
    pub fn decode_frame(&self, bytes: &[u8]) -> (r: FrameRead)
        ensures
            has_frame(bytes@) ==> r is Complete && r->payload@ == first_payload(bytes@)
                && r->consumed == 4 + prefix_value(bytes@),
            !has_frame(bytes@) ==> r is Closed,
    {
        if bytes.len() < 4 {
            return FrameRead::Closed;
        }
        let b0: u32 = bytes[0] as u32;
        let b1: u32 = bytes[1] as u32;
        let b2: u32 = bytes[2] as u32;
        let b3: u32 = bytes[3] as u32;
        let n32: u32 = b0 * 0x100_0000 + b1 * 0x1_0000 + b2 * 0x100 + b3;
        let n: usize = n32 as usize;
        if bytes.len() - 4 < n {
            return FrameRead::Closed;
        }
        let mut payload: Vec<u8> = Vec::new();
        let mut i: usize = 0;
        while i < n
            invariant
                i <= n,
                4 + n <= bytes@.len() <= usize::MAX,
                payload@ == bytes@.subrange(4, 4 + i as int),
            decreases n - i,
        {
            payload.push(bytes[4 + i]);
            assert(bytes@.subrange(4, 4 + i as int + 1) =~= bytes@.subrange(4, 4 + i as int).push(
                bytes@[4 + i as int],
            ));
            i = i + 1;
        }
        FrameRead::Complete { payload, consumed: 4 + n }
    }
}

/// Whether every payload of a list fits a frame.
pub open spec fn all_fit(payloads: Seq<Seq<u8>>) -> bool {
    forall|i: int| 0 <= i < payloads.len() ==> (#[trigger] payloads[i]).len() <= MAX_PAYLOAD_BYTES
}

/// The stream of some payloads followed by one more is the stream of all.
proof fn lemma_stream_push(payloads: Seq<Seq<u8>>, last: Seq<u8>)
    ensures
        stream_of(payloads.push(last)) == stream_of(payloads) + frame_of(last),
    decreases payloads.len(),
{
    if payloads.len() == 0 {
        let one = payloads.push(last);
        assert(one.drop_first() =~= Seq::<Seq<u8>>::empty());
        assert(stream_of(one.drop_first()) =~= Seq::<u8>::empty());
        assert(stream_of(payloads) =~= Seq::<u8>::empty());
        assert(one[0] == last);
        assert(stream_of(one) =~= stream_of(payloads) + frame_of(last));
    } else {
        assert(payloads.push(last).drop_first() =~= payloads.drop_first().push(last));
        lemma_stream_push(payloads.drop_first(), last);
        assert(stream_of(payloads.push(last)) =~= stream_of(payloads) + frame_of(last));
    }
}

impl PluginProtocol {
    /// Frames a series of payloads for sending, one frame after the other,
    /// in the order given.
    ///
    /// If any of the payloads is too large for a frame, nothing is framed
    /// and a protocol error comes back.
    pub fn encode_frames(&self, payloads: &Vec<Vec<u8>>) -> (r: PluginResult<Vec<u8>>)
        ensures
            all_fit(payload_views(payloads@)) ==> r is Ok && r->Ok_0@ == stream_of(
                payload_views(payloads@),
            ),
            !all_fit(payload_views(payloads@)) ==> r is Err && r->Err_0 is Protocol,
    {
        let ghost all = payload_views(payloads@);
        let mut out: Vec<u8> = Vec::new();
        let mut i: usize = 0;
        assert(all.take(0) =~= Seq::<Seq<u8>>::empty());
        while i < payloads.len()
            invariant
                i <= payloads@.len(),
                all == payload_views(payloads@),
                all_fit(all.take(i as int)),
                out@ == stream_of(all.take(i as int)),
            decreases payloads@.len() - i,
        {
            let ghost sent = all.take(i as int);
            assert(all.take(i as int + 1) =~= sent.push(all[i as int]));
            match self.encode_frame(payloads[i].as_slice()) {
                Ok(mut frame) => {
                    proof {
                        lemma_stream_push(sent, all[i as int]);
                    }
                    out.append(&mut frame);
                },
                Err(e) => {
                    return Err(e);
                },
            }
            i = i + 1;
        }
        assert(all.take(i as int) =~= all);
        Ok(out)
    }

    /// Takes every whole frame off the start of `bytes`.
    ///
    /// The payloads come out in the order in which their frames stand in
    /// the buffer. What is left behind them is the beginning of a frame that
    /// has not arrived in full.
    pub fn decode_frames(&self, bytes: &[u8]) -> (batch: FrameBatch)
        ensures
            payload_views(batch.payloads@) == payloads_of(bytes@),
            batch.consumed <= bytes@.len(),
            bytes@.skip(batch.consumed as int) == leftover_of(bytes@),
    {
        let mut payloads: Vec<Vec<u8>> = Vec::new();
        let mut consumed: usize = 0;
        assert(bytes@.skip(0) =~= bytes@);
        assert(payload_views(payloads@) =~= Seq::<Seq<u8>>::empty());
        loop
            invariant
                consumed <= bytes@.len(),
                payloads_of(bytes@) == payload_views(payloads@) + payloads_of(
                    bytes@.skip(consumed as int),
                ),
                leftover_of(bytes@) == leftover_of(bytes@.skip(consumed as int)),
            ensures
                consumed <= bytes@.len(),
                payloads_of(bytes@) == payload_views(payloads@),
                leftover_of(bytes@) == bytes@.skip(consumed as int),
            decreases bytes@.len() - consumed,
        {
            let rest = vstd::slice::slice_subrange(bytes, consumed, bytes.len());
            assert(rest@ =~= bytes@.skip(consumed as int));
            match self.decode_frame(rest) {
                FrameRead::Complete { payload, consumed: taken } => {
                    let ghost before = payload_views(payloads@);
                    payloads.push(payload);
                    proof {
                        assert(payload_views(payloads@) =~= before.push(payload@));
                        assert(after_first(rest@) =~= bytes@.skip(consumed as int + taken as int));
                        assert(before + (seq![payload@] + payloads_of(after_first(rest@)))
                            =~= before.push(payload@) + payloads_of(after_first(rest@)));
                    }
                    consumed = consumed + taken;
                },
                FrameRead::Closed => {
                    assert(payload_views(payloads@) + Seq::<Seq<u8>>::empty() =~= payload_views(
                        payloads@,
                    ));
                    break;
                },
            }
        }
        FrameBatch { payloads, consumed }
    }
}

impl Default for PluginProtocol {
    fn default() -> (p: Self)
        ensures
            p == PluginProtocol,
    {
        PluginProtocol::new()
    }
}

} // verus!

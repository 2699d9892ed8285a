//! Still images of the media at a given time, for previews.

use crate::utils::{chunk_hash, hash_chunk};
use vstd::prelude::*;
use vstd::std_specs::cmp::PartialEqSpecImpl;

verus! {

/// Where to take a preview image from: `seek` microseconds into `input`.
#[derive(Debug)]
pub struct Preview {
    pub seek: i64,
    pub input: String,
}

impl Clone for Preview {
    fn clone(&self) -> (p: Self)
        ensures
            p == *self,
    {
        Preview { seek: self.seek, input: self.input.clone() }
    }
}

impl Default for Preview {
    fn default() -> (p: Self)
        ensures
            p.seek == 0 && p.input@ == Seq::<char>::empty(),
    {
        Preview { seek: 0, input: String::new() }
    }
}

impl PartialEq for Preview {
    fn eq(&self, other: &Self) -> (r: bool) {
        self.seek == other.seek && self.input == other.input
    }
}

impl PartialEqSpecImpl for Preview {
    open spec fn obeys_eq_spec() -> bool {
        true
    }

    open spec fn eq_spec(&self, other: &Self) -> bool {
        self.seek == other.seek && self.input@ == other.input@
    }
}

/// Why no new preview image came out.
#[derive(Debug, Clone, Copy, PartialEq, Eq, Structural)]
pub enum Error {
    /// An error of ffmpeg, by its `AVERROR` code.
    Raw(i32),
    /// The first packet to decode is the one the last image came from.
    SameHash,
    /// The input has no packet to decode.
    NoPackets,
}

impl Error {
    /// The text that tells people what went wrong; `None` for an error of
    /// ffmpeg, whose text ffmpeg gives for the code.
    pub fn text(&self) -> (t: Option<String>)
        ensures
            match *self {
                Error::Raw(_) => t is None,
                Error::SameHash => t matches Some(s) && s@ == "same encoded hash"@,
                Error::NoPackets => t matches Some(s) && s@ == "no valid packets in input"@,
            },
    {
        match self {
            Error::Raw(_) => None,
            Error::SameHash => Some("same encoded hash".to_owned()),
            Error::NoPackets => Some("no valid packets in input".to_owned()),
        }
    }
}

/// ffmpeg's error number for "Resource temporarily unavailable": the decoder
/// needs more packets before it can give a frame.
pub const EAGAIN: i32 = 11;

/// A decoded image: (width, height), RGBA pixel data, and the hash of the
/// packet it was decoded from.
#[derive(Debug, PartialEq)]
pub struct Output {
    pub size: (u32, u32),
    pub rgba: Vec<u8>,
    pub hash: u64,
}

impl Clone for Output {
    fn clone(&self) -> (o: Self)
        ensures
            o.size == self.size && o.rgba@ == self.rgba@ && o.hash == self.hash,
    {
        Output { size: self.size, rgba: self.rgba.clone(), hash: self.hash }
    }
}

/// What to do with the next packet of the video stream.
#[derive(Debug, Clone, Copy, PartialEq, Eq, Structural)]
pub enum PacketStep {
    /// The packet is empty: go on with the next one.
    Skip,
    /// Stop decoding with this error.
    Stop(Error),
    /// Decode the packet, whose hash is given.
    Decode(u64),
}

/// What to do after the decoder was asked for a frame.
#[derive(Debug, Clone, Copy, PartialEq, Eq, Structural)]
pub enum FrameStep {
    /// The decoder needs more packets: go on with the next one.
    Retry,
    /// Stop decoding with this error.
    Fail(Error),
    /// A frame is ready: convert it to an image.
    Ready,
}

/// The step for a packet with content `data`, when the last preview image
/// came from a packet whose hash is `prev_hash`: empty packets are skipped,
/// and a packet with the same hash stops the decoding, as it would give the
/// same image again.
pub open spec fn packet_step_of(prev_hash: u64, data: Seq<u8>) -> PacketStep {
    if data.len() == 0 {
        PacketStep::Skip
    } else if chunk_hash(data) == prev_hash {
        PacketStep::Stop(Error::SameHash)
    } else {
        PacketStep::Decode(chunk_hash(data))
    }
}

/// Decides what to do with the next packet (see [`packet_step_of`]).
pub fn packet_step(prev_hash: u64, data: &[u8]) -> (step: PacketStep)
    ensures
        step == packet_step_of(prev_hash, data@),
{
    if data.len() == 0 {
        return PacketStep::Skip;
    }
    let new_hash = hash_chunk(data);
    if new_hash == prev_hash {
        PacketStep::Stop(Error::SameHash)
    } else {
        PacketStep::Decode(new_hash)
    }
}

/// Decides what to do with the decoder's answer to a request for a frame:
/// `Err(code)` holds an `AVERROR` code; "try again" means more packets are needed.
pub fn frame_step(received: Result<(), i32>) -> (step: FrameStep)
    ensures
        step == match received {
            Ok(()) => FrameStep::Ready,
            Err(code) => if code == -EAGAIN {
                FrameStep::Retry
            } else {
                FrameStep::Fail(Error::Raw(code))
            },
        },
{
    match received {
        Ok(()) => FrameStep::Ready,
        Err(code) => if code == -EAGAIN {
            FrameStep::Retry
        } else {
            FrameStep::Fail(Error::Raw(code))
        },
    }
}

/// RGBA pixel data for RGB data `rgb`: each complete pixel of three bytes
/// is followed by an opaque alpha byte.
pub open spec fn is_rgba_of(rgba: Seq<u8>, rgb: Seq<u8>) -> bool {
    &&& rgba.len() == rgb.len() + rgb.len() / 3
    &&& forall|j: int|
        0 <= j < rgba.len() ==> #[trigger] rgba[j] == if j % 4 == 3 {
            u8::MAX
        } else {
            rgb[j - j / 4]
        }
}

proof fn lemma_rgba_position(i: int)
    requires
        0 <= i,
    ensures
        (i + i / 3) % 4 == i % 3,
        (i + i / 3) / 4 == i / 3,
        (i + i / 3) - (i + i / 3) / 4 == i,
        i % 3 == 2 ==> (i + 1) + (i + 1) / 3 == i + i / 3 + 2,
        i % 3 == 2 ==> (i + i / 3 + 1) % 4 == 3,
        i % 3 != 2 ==> (i + 1) + (i + 1) / 3 == i + i / 3 + 1,
{
    let q = i / 3;
    let r = i % 3;
    assert(i == 3 * q + r && 0 <= r < 3) by (nonlinear_arith)
        requires
            q == i / 3,
            r == i % 3,
            i >= 0,
    ;
    assert(i + i / 3 == 4 * q + r);
    assert((4 * q + r) % 4 == r && (4 * q + r) / 4 == q) by (nonlinear_arith)
        requires
            0 <= r < 3,
            q >= 0,
    ;
    assert((i + 1) / 3 == if r == 2 { q + 1 } else { q }) by (nonlinear_arith)
        requires
            i == 3 * q + r,
            0 <= r < 3,
            q >= 0,
    ;
    assert(r == 2 ==> (4 * q + r + 1) % 4 == 3) by (nonlinear_arith)
        requires
            0 <= r < 3,
            q >= 0,
    ;
}

/// Converts RGB pixel data to RGBA, adding an opaque alpha byte after each
/// complete pixel.
pub fn rgb_to_rgba(rgb: &[u8]) -> (rgba: Vec<u8>)
    requires
        rgb@.len() + rgb@.len() / 3 <= usize::MAX,
    ensures
        is_rgba_of(rgba@, rgb@),
{
    let mut buf: Vec<u8> = Vec::new();
    let mut i: usize = 0;
    while i < rgb.len()
        invariant
            i <= rgb@.len(),
            rgb@.len() + rgb@.len() / 3 <= usize::MAX,
            buf@.len() == i + i / 3,
            forall|j: int|
                0 <= j < buf@.len() ==> #[trigger] buf@[j] == if j % 4 == 3 {
                    u8::MAX
                } else {
                    rgb@[j - j / 4]
                },
        decreases rgb@.len() - i,
    {
        proof {
            lemma_rgba_position(i as int);
        }
        buf.push(rgb[i]);
        if (i + 1) % 3 == 0 {
            buf.push(u8::MAX);
        }
        i = i + 1;
    }
    buf
}

} // verus!

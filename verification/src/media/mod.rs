//! A clip of an input media file: which part of it, and which of its streams,
//! go to the output file.

use crate::decimal::{push_str, push_text, seconds_string, seconds_text};
use vstd::prelude::*;

pub mod player;
pub mod preview;

verus! {

/// Why no preview image came out (the name that the player's previews use).
pub type PreviewError = preview::Error;

/// The kinds of stream a media container holds (as ffmpeg classifies them).
#[derive(Debug, Clone, Copy, PartialEq, Eq, Structural)]
pub enum MediaType {
    Unknown,
    Video,
    Audio,
    Data,
    Subtitle,
    Attachment,
}

/// What to cut out of `input` and write to `output`.
///
/// `start` and `end` are times in microseconds (ffmpeg's `AV_TIME_BASE` unit).
#[derive(Debug, PartialEq)]
pub struct Media {
    pub start: i64,
    pub end: i64,
    pub input: String,
    pub output: String,
    pub use_video: bool,
    pub use_audio: bool,
    pub use_subs: bool,
    pub use_extra_streams: bool,
}

impl Clone for Media {
    fn clone(&self) -> (m: Self)
        ensures
            m == *self,
    {
        Media {
            start: self.start,
            end: self.end,
            input: self.input.clone(),
            output: self.output.clone(),
            use_video: self.use_video,
            use_audio: self.use_audio,
            use_subs: self.use_subs,
            use_extra_streams: self.use_extra_streams,
        }
    }
}

impl Default for Media {
    fn default() -> (m: Self)
        ensures
            m.start == 0 && m.end == 0,
            m.input@ == Seq::<char>::empty() && m.output@ == Seq::<char>::empty(),
            !m.use_video && !m.use_audio && !m.use_subs && !m.use_extra_streams,
    {
        Media {
            start: 0,
            end: 0,
            input: String::new(),
            output: String::new(),
            use_video: false,
            use_audio: false,
            use_subs: false,
            use_extra_streams: false,
        }
    }
}

/// Whether a stream of kind `k` occurs at index `from` or later.
pub open spec fn has_from(kinds: Seq<MediaType>, from: int, k: MediaType) -> bool {
    exists|i: int| from <= i < kinds.len() && kinds[i] == k
}

/// Whether the input has a stream of kind `k`.
pub open spec fn has_kind(kinds: Seq<MediaType>, k: MediaType) -> bool {
    has_from(kinds, 0, k)
}

/// Whether any of the streams, of kinds `kinds`, is of kind `k`.
pub fn any_kind(kinds: &Vec<MediaType>, k: MediaType) -> (found: bool)
    ensures
        found == has_kind(kinds@, k),
{
    let mut i: usize = 0;
    while i < kinds.len()
        invariant
            i <= kinds@.len(),
            forall|j: int| 0 <= j < i ==> kinds@[j] != k,
        decreases kinds@.len() - i,
    {
        if kinds[i] == k {
            return true;
        }
        i = i + 1;
    }
    false
}

/// The larger of two times.
pub open spec fn later(a: i64, b: i64) -> i64 {
    if a >= b { a } else { b }
}

/// The smaller of two times.
pub open spec fn earlier(a: i64, b: i64) -> i64 {
    if a <= b { a } else { b }
}

impl Media {
    /// The media with `start` and `end` made reasonable for an input of
    /// `len` microseconds (see [`Media::clamp_numbers`]): the end is not
    /// negative and, for a known length, not past it; the start is not
    /// negative and not past the end. A negative length (ffmpeg's value for
    /// an unknown duration) sets no bound on the end.
    pub open spec fn clamped(self, len: i64) -> Media {
        let end = if len >= 0 { earlier(later(self.end, 0), len) } else { later(self.end, 0) };
        Media { start: earlier(later(self.start, 0), end), end, ..self }
    }

    /// Makes sure that the start and end values are reasonable, regardless
    /// of when it is called: neither is negative, the start is no later than
    /// the end, and the end is no later than `input_length` when that is
    /// known (not negative).
    ///
    /// It is however a little disruptive to user input;
    /// call this function when user input has ceased.
    pub fn clamp_numbers(&mut self, input_length: i64)
        ensures
            *final(self) == old(self).clamped(input_length),
    {
        if self.start < 0 {
            self.start = 0;
        }
        if self.end < 0 {
            self.end = 0;
        }
        if input_length >= 0 && self.end > input_length {
            self.end = input_length;
        }
        if self.start > self.end {
            self.start = self.end;
        }
    }

    /// The stream flags that probing an input with streams `kinds` gives:
    /// each kind of stream that exists is used, and extra streams are used
    /// when there are more streams than kinds used.
    pub open spec fn probed(self, kinds: Seq<MediaType>) -> Media {
        let v = has_kind(kinds, MediaType::Video);
        let a = has_kind(kinds, MediaType::Audio);
        let s = has_kind(kinds, MediaType::Subtitle);
        let count: int = (if v { 1int } else { 0 }) + (if a { 1int } else { 0 }) + (if s { 1int } else { 0 });
        Media {
            use_video: v,
            use_audio: a,
            use_subs: s,
            use_extra_streams: kinds.len() > count,
            ..self
        }
    }

    /// Updates the media from the parameters of its input, whose streams
    /// have the kinds `kinds` and which lasts `duration` microseconds,
    /// returning the input length. By default, we use all streams that exist.
    pub fn update_video_params(&mut self, kinds: &Vec<MediaType>, duration: i64) -> (len: i64)
        ensures
            *final(self) == old(self).probed(kinds@),
            len == duration,
    {
        let v = any_kind(kinds, MediaType::Video);
        let a = any_kind(kinds, MediaType::Audio);
        let s = any_kind(kinds, MediaType::Subtitle);
        self.use_video = v;
        self.use_audio = a;
        self.use_subs = s;
        let count: usize = (if v { 1usize } else { 0 }) + (if a { 1usize } else { 0 }) + (if s { 1usize } else { 0 });
        self.use_extra_streams = kinds.len() > count;
        duration
    }
}

/// Clamping makes the times reasonable, whenever it is called: neither is
/// negative, the start is no later than the end, and the end lies within
/// the input when its length is known.
pub proof fn lemma_clamp_reasonable(m: Media, len: i64)
    ensures
        0 <= m.clamped(len).start <= m.clamped(len).end,
        len >= 0 ==> m.clamped(len).end <= len,
{
}

/// Clamping is idempotent: clamping again for the same length changes nothing.
pub proof fn lemma_clamp_idempotent(m: Media, len: i64)
    ensures
        m.clamped(len).clamped(len) == m.clamped(len),
{
}

/// Times that are already reasonable are left as they are.
pub proof fn lemma_clamp_keeps_reasonable(m: Media, len: i64)
    requires
        0 <= m.start <= m.end,
        len >= 0 ==> m.end <= len,
    ensures
        m.clamped(len) == m,
{
}

/// Clamping changes nothing but the start and end.
pub proof fn lemma_clamp_only_times(m: Media, len: i64)
    ensures
        m.clamped(len).input == m.input,
        m.clamped(len).output == m.output,
        m.clamped(len).use_video == m.use_video,
        m.clamped(len).use_audio == m.use_audio,
        m.clamped(len).use_subs == m.use_subs,
        m.clamped(len).use_extra_streams == m.use_extra_streams,
{
}

/// Probing uses exactly the kinds of stream that exist, and leaves all but
/// the stream flags as they were.
pub proof fn lemma_probe_uses_existing_kinds(m: Media, kinds: Seq<MediaType>)
    ensures
        m.probed(kinds).use_video <==> exists|i: int| 0 <= i < kinds.len() && kinds[i] == MediaType::Video,
        m.probed(kinds).use_audio <==> exists|i: int| 0 <= i < kinds.len() && kinds[i] == MediaType::Audio,
        m.probed(kinds).use_subs <==> exists|i: int| 0 <= i < kinds.len() && kinds[i] == MediaType::Subtitle,
        m.probed(kinds).start == m.start && m.probed(kinds).end == m.end,
        m.probed(kinds).input == m.input && m.probed(kinds).output == m.output,
{
}

/// The nearest integer to `a / b`, halves rounded away from zero (as
/// `f64::round` does); `0` when `b == 0`.
pub open spec fn round_div(a: int, b: int) -> int {
    let aa = if a < 0 { -a } else { a };
    let bb = if b < 0 { -b } else { b };
    let q = if bb == 0 { 0 } else { aa / bb };
    let r = if bb == 0 { 0 } else { aa % bb };
    let m = if bb != 0 && 2 * r >= bb { q + 1 } else { q };
    if (a < 0) != (b < 0) { -m } else { m }
}

/// `round_div` rounds to the nearest integer: for a positive divisor, the
/// rounded quotient times the divisor lies within half the divisor of the
/// dividend, and a dividend exactly halfway is rounded away from zero.
pub proof fn lemma_round_div_nearest(a: int, b: int)
    requires
        b > 0,
    ensures
        a >= 0 ==> -b <= 2 * (a - round_div(a, b) * b) < b,
        a < 0 ==> -b < 2 * (a - round_div(a, b) * b) <= b,
{
    let aa = if a < 0 { -a } else { a };
    let q = aa / b;
    let r = aa % b;
    assert(aa == q * b + r && 0 <= r < b) by (nonlinear_arith)
        requires
            q == aa / b,
            r == aa % b,
            b > 0,
            aa >= 0,
    ;
    let m = if 2 * r >= b { q + 1 } else { q };
    assert(round_div(a, b) == if a < 0 { -m } else { m });
    assert(m * b == if 2 * r >= b { q * b + b } else { q * b }) by (nonlinear_arith)
        requires
            m == (if 2 * r >= b { q + 1 } else { q }),
    ;
    if a < 0 {
        assert(round_div(a, b) * b == -(m * b)) by (nonlinear_arith)
            requires
                round_div(a, b) == -m,
        ;
    } else {
        assert(round_div(a, b) * b == m * b);
    }
}

/// `x` brought into the range of `i64`, as a float-to-integer `as` cast does.
pub open spec fn saturate(x: int) -> i64 {
    if x < i64::MIN { i64::MIN } else if x > i64::MAX { i64::MAX } else { x as i64 }
}

/// The first presentation timestamp, in a stream whose time base is
/// `num / den` seconds, that lies at or after `end` microseconds.
pub open spec fn cutoff_of(end: i64, num: i32, den: i32) -> i64 {
    saturate(round_div(end as int * den as int, num as int * 1_000_000))
}

/// The presentation timestamp from which on packets of a stream whose time
/// base is `num / den` seconds lie past `end` microseconds and are dropped.
pub fn packet_cutoff(end: i64, num: i32, den: i32) -> (c: i64)
    requires
        num != 0,
    ensures
        c == cutoff_of(end, num, den),
{
    proof {
        let e = end as int;
        let d = den as int;
        assert(-0x4000_0000_0000_0000_0000_0000int <= e * d <= 0x4000_0000_0000_0000_0000_0000int)
            by (nonlinear_arith)
            requires
                -0x8000_0000_0000_0000int <= e <= 0x8000_0000_0000_0000int,
                -0x8000_0000int <= d <= 0x8000_0000int,
        {
        }
    }
    let a: i128 = end as i128 * den as i128;
    let b: i128 = num as i128 * 1_000_000i128;
    let aa: i128 = if a < 0 { -a } else { a };
    let bb: i128 = if b < 0 { -b } else { b };
    let q: i128 = aa / bb;
    let r: i128 = aa % bb;
    let m: i128 = if 2 * r >= bb { q + 1 } else { q };
    let x: i128 = if (a < 0) != (b < 0) { -m } else { m };
    if x < i64::MIN as i128 {
        i64::MIN
    } else if x > i64::MAX as i128 {
        i64::MAX
    } else {
        x as i64
    }
}

/// Whether a packet with presentation timestamp `pts`, in a stream whose time
/// base is `num / den` seconds, lies before `end` microseconds and is kept.
pub fn packet_in_range(pts: i64, end: i64, num: i32, den: i32) -> (keep: bool)
    requires
        num != 0,
    ensures
        keep == (pts < cutoff_of(end, num, den)),
{
    pts < packet_cutoff(end, num, den)
}

impl Media {
    /// Whether streams of kind `k` go to the output.
    pub open spec fn keeps_kind(self, k: MediaType) -> bool {
        match k {
            MediaType::Video => self.use_video,
            MediaType::Audio => self.use_audio,
            MediaType::Subtitle => self.use_subs,
            _ => self.use_extra_streams,
        }
    }

    /// How many of the first `i` streams go to the output.
    pub open spec fn kept_before(self, kinds: Seq<MediaType>, i: int) -> int
        decreases i,
    {
        if i <= 0 {
            0
        } else {
            self.kept_before(kinds, i - 1) + if self.keeps_kind(kinds[i - 1]) { 1int } else { 0 }
        }
    }

    /// Whether streams of kind `k` go to the output.
    pub fn keeps(&self, k: MediaType) -> (b: bool)
        ensures
            b == self.keeps_kind(k),
    {
        match k {
            MediaType::Video => self.use_video,
            MediaType::Audio => self.use_audio,
            MediaType::Subtitle => self.use_subs,
            _ => self.use_extra_streams,
        }
    }

    /// For each input stream, of kind `kinds[i]`, the index of the output
    /// stream it is copied to, or `-1` when it is left out. The streams that
    /// are kept are numbered from `0` in input order.
    pub fn stream_mapping(&self, kinds: &Vec<MediaType>) -> (mapping: Vec<i64>)
        requires
            kinds@.len() < i64::MAX,
        ensures
            mapping@.len() == kinds@.len(),
            forall|i: int|
                0 <= i < kinds@.len() ==> #[trigger] mapping@[i] == if self.keeps_kind(kinds@[i]) {
                    self.kept_before(kinds@, i)
                } else {
                    -1
                },
    {
        let mut mapping: Vec<i64> = Vec::new();
        let mut ost_index: i64 = 0;
        let mut i: usize = 0;
        while i < kinds.len()
            invariant
                i <= kinds@.len() < i64::MAX,
                mapping@.len() == i,
                ost_index == self.kept_before(kinds@, i as int),
                0 <= ost_index <= i,
                forall|j: int|
                    0 <= j < i ==> #[trigger] mapping@[j] == if self.keeps_kind(kinds@[j]) {
                        self.kept_before(kinds@, j)
                    } else {
                        -1
                    },
            decreases kinds@.len() - i,
        {
            if self.keeps(kinds[i]) {
                mapping.push(ost_index);
                ost_index = ost_index + 1;
            } else {
                mapping.push(-1);
            }
            i = i + 1;
        }
        mapping
    }
}

/// Counting kept streams never decreases along the input, and grows by
/// one exactly at each kept stream.
pub proof fn lemma_kept_before_monotone(m: Media, kinds: Seq<MediaType>, i: int, j: int)
    requires
        0 <= i <= j <= kinds.len(),
    ensures
        m.kept_before(kinds, i) <= m.kept_before(kinds, j),
        i < j && m.keeps_kind(kinds[i]) ==> m.kept_before(kinds, i) < m.kept_before(kinds, j),
        0 <= m.kept_before(kinds, i) <= i,
    decreases j - i, i,
{
    if i < j {
        lemma_kept_before_monotone(m, kinds, i, j - 1);
    } else if i > 0 {
        lemma_kept_before_monotone(m, kinds, i - 1, i - 1);
    }
}

/// Each stream flag alone decides whether streams of its own kind are
/// copied: video streams exactly when video is used, audio streams when
/// audio is, subtitle streams when subtitles are, and streams of any other
/// kind when extra streams are. A stream that is left out maps to `-1`,
/// and one that is kept to an output index that is not negative.
pub proof fn lemma_mapping_follows_flags(m: Media, kinds: Seq<MediaType>, i: int)
    requires
        0 <= i < kinds.len(),
    ensures
        m.keeps_kind(MediaType::Video) == m.use_video,
        m.keeps_kind(MediaType::Audio) == m.use_audio,
        m.keeps_kind(MediaType::Subtitle) == m.use_subs,
        m.keeps_kind(MediaType::Unknown) == m.use_extra_streams,
        m.keeps_kind(MediaType::Data) == m.use_extra_streams,
        m.keeps_kind(MediaType::Attachment) == m.use_extra_streams,
        m.keeps_kind(kinds[i]) ==> m.kept_before(kinds, i) >= 0,
{
    lemma_kept_before_monotone(m, kinds, i, i);
}

/// The output streams are numbered densely in input order: two kept input
/// streams get different output indices, the earlier one the smaller, and
/// every index lies below the number of kept streams.
pub proof fn lemma_mapping_dense(m: Media, kinds: Seq<MediaType>, i: int, j: int)
    requires
        0 <= i < j < kinds.len(),
        m.keeps_kind(kinds[i]),
        m.keeps_kind(kinds[j]),
    ensures
        0 <= m.kept_before(kinds, i) < m.kept_before(kinds, j) < m.kept_before(kinds, kinds.len() as int),
{
    lemma_kept_before_monotone(m, kinds, i, j);
    lemma_kept_before_monotone(m, kinds, j, kinds.len() as int);
}

impl Media {
    /// The arguments with which the `ffmpeg` program copies the clip: seek
    /// to the start, stop at the end, copy or drop each kind of stream, map
    /// all streams when extra streams are wanted, and write the output.
    pub open spec fn ffmpeg_arg_list(self) -> Seq<Seq<char>> {
        seq!["-ss"@, seconds_text(self.start as int), "-to"@, seconds_text(self.end as int), "-i"@, self.input@]
            + (if self.use_audio { seq!["-c:a"@, "copy"@] } else { seq!["-an"@] })
            + (if self.use_video { seq!["-c:v"@, "copy"@] } else { seq!["-vn"@] })
            + (if self.use_subs { seq!["-c:s"@, "copy"@] } else { seq!["-sn"@] })
            + (if self.use_extra_streams { seq!["-map"@, "0"@] } else { Seq::empty() })
            + seq![self.output@]
    }

    /// The arguments of the `ffmpeg` program run that creates the output
    /// from the input (see [`Media::ffmpeg_arg_list`]).
    pub fn ffmpeg_args(&self) -> (args: Vec<String>)
        ensures
            args.deep_view() == self.ffmpeg_arg_list(),
    {
        let mut args: Vec<String> = Vec::new();
        push_str(&mut args, "-ss");
        push_text(&mut args, seconds_string(self.start));
        push_str(&mut args, "-to");
        push_text(&mut args, seconds_string(self.end));
        push_str(&mut args, "-i");
        push_text(&mut args, self.input.clone());
        let ghost base = args.deep_view();
        if self.use_audio {
            push_str(&mut args, "-c:a");
            push_str(&mut args, "copy");
        } else {
            push_str(&mut args, "-an");
        }
        let ghost a = args.deep_view();
        if self.use_video {
            push_str(&mut args, "-c:v");
            push_str(&mut args, "copy");
        } else {
            push_str(&mut args, "-vn");
        }
        let ghost v = args.deep_view();
        if self.use_subs {
            push_str(&mut args, "-c:s");
            push_str(&mut args, "copy");
        } else {
            push_str(&mut args, "-sn");
        }
        let ghost su = args.deep_view();
        if self.use_extra_streams {
            push_str(&mut args, "-map");
            push_str(&mut args, "0");
        }
        let ghost ex = args.deep_view();
        push_text(&mut args, self.output.clone());
        proof {
            let x = self.ffmpeg_arg_list();
            assert(base =~= seq!["-ss"@, seconds_text(self.start as int), "-to"@, seconds_text(self.end as int), "-i"@, self.input@]);
            assert(a =~= base + (if self.use_audio { seq!["-c:a"@, "copy"@] } else { seq!["-an"@] }));
            assert(v =~= a + (if self.use_video { seq!["-c:v"@, "copy"@] } else { seq!["-vn"@] }));
            assert(su =~= v + (if self.use_subs { seq!["-c:s"@, "copy"@] } else { seq!["-sn"@] }));
            assert(ex =~= su + (if self.use_extra_streams { seq!["-map"@, "0"@] } else { Seq::empty() }));
            assert(args.deep_view() =~= x);
        }
        args
    }
}

/// Probing uses extra streams exactly when the input has more streams than
/// there are kinds among video, audio and subtitles that occur in it: a
/// second stream of a kind, or a stream of another kind, is an extra one.
pub proof fn lemma_probe_extra_streams(m: Media, kinds: Seq<MediaType>)
    ensures
        m.probed(kinds).use_extra_streams <==> kinds.len() > (if exists|i: int|
            0 <= i < kinds.len() && kinds[i] == MediaType::Video {
            1int
        } else {
            0int
        }) + (if exists|i: int| 0 <= i < kinds.len() && kinds[i] == MediaType::Audio {
            1int
        } else {
            0int
        }) + (if exists|i: int| 0 <= i < kinds.len() && kinds[i] == MediaType::Subtitle {
            1int
        } else {
            0int
        }),
        m.probed(kinds).use_extra_streams <== exists|i: int|
            0 <= i < kinds.len() && kinds[i] != MediaType::Video && kinds[i] != MediaType::Audio && kinds[i]
                != MediaType::Subtitle,
        m.probed(kinds).use_extra_streams <== exists|i: int, j: int| 0 <= i < j < kinds.len() && kinds[i] == kinds[j],
{
    let v = has_kind(kinds, MediaType::Video);
    let a = has_kind(kinds, MediaType::Audio);
    let s = has_kind(kinds, MediaType::Subtitle);
    let count: int = (if v { 1int } else { 0 }) + (if a { 1int } else { 0 }) + (if s { 1int } else { 0 });
    if exists|i: int|
        0 <= i < kinds.len() && kinds[i] != MediaType::Video && kinds[i] != MediaType::Audio && kinds[i]
            != MediaType::Subtitle {
        let o = choose|i: int|
            0 <= i < kinds.len() && kinds[i] != MediaType::Video && kinds[i] != MediaType::Audio && kinds[i]
                != MediaType::Subtitle;
        lemma_kind_witnesses(kinds, o, o);
    }
    if exists|i: int, j: int| 0 <= i < j < kinds.len() && kinds[i] == kinds[j] {
        let (i, j) = choose|i: int, j: int| 0 <= i < j < kinds.len() && kinds[i] == kinds[j];
        lemma_kind_witnesses(kinds, i, j);
    }
}

/// Indices `x` and `y` (equal, for a stream of another kind than video,
/// audio and subtitles; or two streams of one kind) together with one
/// stream of each kind that occurs make more distinct indices than kinds
/// that occur, so the input has more streams than that.
proof fn lemma_kind_witnesses(kinds: Seq<MediaType>, x: int, y: int)
    requires
        0 <= x <= y < kinds.len(),
        kinds[x] == kinds[y],
        x == y ==> kinds[x] != MediaType::Video && kinds[x] != MediaType::Audio && kinds[x] != MediaType::Subtitle,
    ensures
        kinds.len() > (if has_kind(kinds, MediaType::Video) { 1int } else { 0 }) + (if has_kind(
            kinds,
            MediaType::Audio,
        ) { 1int } else { 0 }) + (if has_kind(kinds, MediaType::Subtitle) { 1int } else { 0 }),
{
    let v = has_kind(kinds, MediaType::Video);
    let a = has_kind(kinds, MediaType::Audio);
    let s = has_kind(kinds, MediaType::Subtitle);
    let k = kinds[x];
    // one index for each kind that occurs, taking `x` for the kind of `x`
    let wv = if k == MediaType::Video { x } else if v { choose|i: int| 0 <= i < kinds.len() && kinds[i] == MediaType::Video } else { x };
    let wa = if k == MediaType::Audio { x } else if a { choose|i: int| 0 <= i < kinds.len() && kinds[i] == MediaType::Audio } else { x };
    let ws = if k == MediaType::Subtitle { x } else if s { choose|i: int| 0 <= i < kinds.len() && kinds[i] == MediaType::Subtitle } else { x };
    let w0 = Set::<int>::empty().insert(x);
    let w1 = if v && k != MediaType::Video { w0.insert(wv) } else { w0 };
    let w2 = if a && k != MediaType::Audio { w1.insert(wa) } else { w1 };
    let w3 = if s && k != MediaType::Subtitle { w2.insert(ws) } else { w2 };
    let w4 = if x != y { w3.insert(y) } else { w3.insert(y) };
    assert(w1.len() == w0.len() + if v && k != MediaType::Video { 1int } else { 0 });
    assert(w2.len() == w1.len() + if a && k != MediaType::Audio { 1int } else { 0 });
    assert(w3.len() == w2.len() + if s && k != MediaType::Subtitle { 1int } else { 0 });
    if x != y {
        assert(!w3.contains(y));
        assert(w4.len() == w3.len() + 1);
    } else {
        assert(w4 =~= w3);
    }
    vstd::set_lib::lemma_int_range(0, kinds.len() as int);
    assert(w4.subset_of(vstd::set_lib::set_int_range(0, kinds.len() as int)));
    vstd::set_lib::lemma_len_subset(w4, vstd::set_lib::set_int_range(0, kinds.len() as int));
}

/// The options of an `ffmpeg` argument list: what stands between the input
/// (`-i` and its path) and the output path at the end.
pub open spec fn options_of(args: Seq<Seq<char>>) -> Seq<Seq<char>> {
    args.subrange(6, args.len() - 1)
}

/// Each stream flag alone decides the options for its own kind of stream:
/// audio is copied (`-c:a copy`) exactly when it is used and dropped
/// (`-an`) exactly when it is not, and likewise video (`-c:v`, `-vn`) and
/// subtitles (`-c:s`, `-sn`); all streams are mapped (`-map 0`) exactly
/// when extra streams are used. The run seeks to the start, stops at the
/// end, reads the input and writes the output.
#[verifier::rlimit(60)]
#[verifier::spinoff_prover]
pub proof fn lemma_ffmpeg_args_follow_flags(m: Media)
    ensures
        ({
            let args = m.ffmpeg_arg_list();
            let opts = options_of(args);
            &&& args.len() >= 10
            &&& args.take(6) == seq!["-ss"@, seconds_text(m.start as int), "-to"@, seconds_text(m.end as int), "-i"@, m.input@]
            &&& args.last() == m.output@
            &&& (opts.contains("-c:a"@) <==> m.use_audio)
            &&& (opts.contains("-an"@) <==> !m.use_audio)
            &&& (opts.contains("-c:v"@) <==> m.use_video)
            &&& (opts.contains("-vn"@) <==> !m.use_video)
            &&& (opts.contains("-c:s"@) <==> m.use_subs)
            &&& (opts.contains("-sn"@) <==> !m.use_subs)
            &&& (opts.contains("-map"@) <==> m.use_extra_streams)
            &&& forall|i: int| 0 <= i < opts.len() && #[trigger] opts[i] == "copy"@ ==> i > 0 && (opts[i - 1] == "-c:a"@
                || opts[i - 1] == "-c:v"@ || opts[i - 1] == "-c:s"@)
        }),
{
    reveal_strlit("-c:a");
    reveal_strlit("-an");
    reveal_strlit("-c:v");
    reveal_strlit("-vn");
    reveal_strlit("-c:s");
    reveal_strlit("-sn");
    reveal_strlit("-map");
    reveal_strlit("0");
    reveal_strlit("copy");
    let args = m.ffmpeg_arg_list();
    let a: Seq<Seq<char>> = if m.use_audio { seq!["-c:a"@, "copy"@] } else { seq!["-an"@] };
    let v: Seq<Seq<char>> = if m.use_video { seq!["-c:v"@, "copy"@] } else { seq!["-vn"@] };
    let s: Seq<Seq<char>> = if m.use_subs { seq!["-c:s"@, "copy"@] } else { seq!["-sn"@] };
    let e: Seq<Seq<char>> = if m.use_extra_streams { seq!["-map"@, "0"@] } else { Seq::empty() };
    let head = seq!["-ss"@, seconds_text(m.start as int), "-to"@, seconds_text(m.end as int), "-i"@, m.input@];
    let opts = a + v + s + e;
    assert(args =~= head + opts + seq![m.output@]);
    assert(options_of(args) =~= opts);
    assert(args.take(6) =~= head);
    let names = seq!["-c:a"@, "-an"@, "-c:v"@, "-vn"@, "-c:s"@, "-sn"@, "-map"@, "0"@, "copy"@];
    assert(forall|i: int, j: int| 0 <= i < j < names.len() ==> names[i] != names[j]) by {
        assert forall|i: int, j: int| 0 <= i < j < names.len() implies names[i] != names[j] by {
            assert(names[i].len() != names[j].len() || names[i][0] != names[j][0] || names[i][1]
                != names[j][1] || names[i][2] != names[j][2] || names[i][3] != names[j][3]);
        }
    }
    assert(opts.contains("-c:a"@) <==> m.use_audio) by {
        if m.use_audio {
            assert(opts[0] == "-c:a"@);
        }
    }
    assert(opts.contains("-an"@) <==> !m.use_audio) by {
        if !m.use_audio {
            assert(opts[0] == "-an"@);
        }
    }
    assert(opts.contains("-c:v"@) <==> m.use_video) by {
        if m.use_video {
            assert(opts[a.len() as int] == "-c:v"@);
        }
    }
    assert(opts.contains("-vn"@) <==> !m.use_video) by {
        if !m.use_video {
            assert(opts[a.len() as int] == "-vn"@);
        }
    }
    assert(opts.contains("-c:s"@) <==> m.use_subs) by {
        if m.use_subs {
            assert(opts[(a.len() + v.len()) as int] == "-c:s"@);
        }
    }
    assert(opts.contains("-sn"@) <==> !m.use_subs) by {
        if !m.use_subs {
            assert(opts[(a.len() + v.len()) as int] == "-sn"@);
        }
    }
    assert(opts.contains("-map"@) <==> m.use_extra_streams) by {
        if m.use_extra_streams {
            assert(opts[(a.len() + v.len() + s.len()) as int] == "-map"@);
        }
    }
}

} // verus!

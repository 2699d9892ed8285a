//! Decisions and arguments for playing part of the media in the `mpv` player.

use super::preview::Preview;
use super::{round_div, Media};
use crate::decimal::{decimal, int_text, push_decimal, push_int, push_seconds, push_str, push_text, seconds_text};
use vstd::prelude::*;

verus! {

/// What is known of the player process started last.
#[derive(Debug, Clone, Copy, PartialEq, Eq, Structural)]
pub enum ChildState {
    /// No player was started, or it was forgotten.
    Absent,
    /// The player is still running.
    Running,
    /// The player has exited, successfully or not.
    Exited { success: bool },
    /// The state of the player could not be checked.
    Unknown,
}

/// What toggling the player does.
#[derive(Debug, Clone, Copy, PartialEq, Eq, Structural)]
pub enum PlayerStep {
    /// Stop the running player.
    Kill,
    /// Forget the previous player, if any, and start a new one.
    Play,
}

/// Whether the player counts as active: only one that is still running does.
pub fn is_active(state: ChildState) -> (active: bool)
    ensures
        active == (state == ChildState::Running),
{
    match state {
        ChildState::Running => true,
        _ => false,
    }
}

/// Toggling stops an active player, and starts a new one otherwise.
pub fn toggle_step(state: ChildState) -> (step: PlayerStep)
    ensures
        step == if state == ChildState::Running {
            PlayerStep::Kill
        } else {
            PlayerStep::Play
        },
{
    if is_active(state) {
        PlayerStep::Kill
    } else {
        PlayerStep::Play
    }
}

/// `x` brought into the range of `usize`, as a float-to-integer `as` cast does.
pub open spec fn saturate_usize(x: int) -> usize {
    if x < 0 { 0 } else if x > usize::MAX { usize::MAX } else { x as usize }
}

fn rounded_seconds(us: i128) -> (s: usize)
    requires
        -0x1_0000_0000_0000_0000i128 <= us <= 0x1_0000_0000_0000_0000i128,
    ensures
        s == saturate_usize(round_div(us as int, 1_000_000)),
{
    let a: i128 = if us < 0 { -us } else { us };
    let q: i128 = a / 1_000_000;
    let r: i128 = a % 1_000_000;
    let m: i128 = if 2 * r >= 1_000_000 { q + 1 } else { q };
    if us < 0 {
        0
    } else if m > usize::MAX as i128 {
        usize::MAX
    } else {
        m as usize
    }
}

/// The (start, length) in whole seconds of the part of `media` to play:
/// its start, and the time from start to end, each rounded to the nearest second.
pub open spec fn preview_window_of(media: Media) -> (usize, usize) {
    (
        saturate_usize(round_div(media.start as int, 1_000_000)),
        saturate_usize(round_div(media.end as int - media.start as int, 1_000_000)),
    )
}

/// The (start, length) in whole seconds of the part of `media` that
/// toggling its preview plays; it does not use the output or the extra streams.
pub fn preview_window(media: &Media) -> (w: (usize, usize))
    ensures
        w == preview_window_of(*media),
{
    let start = rounded_seconds(media.start as i128);
    let length = rounded_seconds(media.end as i128 - media.start as i128);
    (start, length)
}

/// The arguments of a player run from `start` for `length` seconds of the
/// file at `path`, leaving out video, audio or subtitles when they are not wanted.
pub open spec fn play_arg_list(
    path: Seq<char>,
    start: usize,
    length: usize,
    video: bool,
    audio: bool,
    subs: bool,
) -> Seq<Seq<char>> {
    seq![
        "--start="@ + decimal(start as nat),
        "--length="@ + decimal(length as nat),
        "--no-config"@,
        "--volume=70"@,
        "--player-operation-mode=pseudo-gui"@,
        "--keep-open"@,
        path,
    ] + (if !video { seq!["--video=no"@] } else { Seq::empty() }) + (if !audio {
        seq!["--audio=no"@]
    } else {
        Seq::empty()
    }) + (if !subs { seq!["--sub=no"@] } else { Seq::empty() })
}

/// The arguments with which the player is spawned (see [`play_arg_list`]).
pub fn play_args(
    path: &str,
    start: usize,
    length: usize,
    video: bool,
    audio: bool,
    subs: bool,
) -> (args: Vec<String>)
    ensures
        args.deep_view() == play_arg_list(path@, start, length, video, audio, subs),
{
    let mut args: Vec<String> = Vec::new();
    let mut start_arg = "--start=".to_owned();
    push_decimal(&mut start_arg, start as u64);
    let mut length_arg = "--length=".to_owned();
    push_decimal(&mut length_arg, length as u64);
    push_text(&mut args, start_arg);
    push_text(&mut args, length_arg);
    push_str(&mut args, "--no-config");
    push_str(&mut args, "--volume=70");
    push_str(&mut args, "--player-operation-mode=pseudo-gui");
    push_str(&mut args, "--keep-open");
    push_str(&mut args, path);
    let ghost base = args.deep_view();
    if !video {
        push_str(&mut args, "--video=no");
    }
    let ghost v = args.deep_view();
    if !audio {
        push_str(&mut args, "--audio=no");
    }
    let ghost a = args.deep_view();
    if !subs {
        push_str(&mut args, "--sub=no");
    }
    proof {
        assert(base =~= seq![
            "--start="@ + decimal(start as nat),
            "--length="@ + decimal(length as nat),
            "--no-config"@,
            "--volume=70"@,
            "--player-operation-mode=pseudo-gui"@,
            "--keep-open"@,
            path@,
        ]);
        assert(v =~= base + (if !video { seq!["--video=no"@] } else { Seq::empty() }));
        assert(a =~= v + (if !audio { seq!["--audio=no"@] } else { Seq::empty() }));
        assert(args.deep_view() =~= play_arg_list(path@, start, length, video, audio, subs));
    }
    args
}

/// The arguments of a player run of `secs` seconds from the time of
/// `preview`, in a window when video is wanted and without video otherwise.
pub open spec fn preview_play_arg_list(preview: Preview, secs: i64, video: bool, audio: bool) -> Seq<
    Seq<char>,
> {
    seq![
        "--start="@ + seconds_text(preview.seek as int),
        "--length="@ + int_text(secs as int),
        "--no-config"@,
        "--volume=70"@,
        "--terminal=no"@,
        preview.input@,
        if !video { "--video=no"@ } else { "--player-operation-mode=pseudo-gui"@ },
    ] + (if !audio { seq!["--audio=no"@] } else { Seq::empty() })
}

/// The arguments with which a player of `secs` seconds from `preview` is
/// spawned (see [`preview_play_arg_list`]).
pub fn preview_play_args(preview: &Preview, secs: i64, video: bool, audio: bool) -> (args: Vec<String>)
    ensures
        args.deep_view() == preview_play_arg_list(*preview, secs, video, audio),
{
    let mut args: Vec<String> = Vec::new();
    let mut start_arg = "--start=".to_owned();
    push_seconds(&mut start_arg, preview.seek);
    let mut length_arg = "--length=".to_owned();
    push_int(&mut length_arg, secs);
    push_text(&mut args, start_arg);
    push_text(&mut args, length_arg);
    push_str(&mut args, "--no-config");
    push_str(&mut args, "--volume=70");
    push_str(&mut args, "--terminal=no");
    push_text(&mut args, preview.input.clone());
    if !video {
        push_str(&mut args, "--video=no");
    } else {
        push_str(&mut args, "--player-operation-mode=pseudo-gui");
    }
    let ghost base = args.deep_view();
    if !audio {
        push_str(&mut args, "--audio=no");
    }
    proof {
        assert(base =~= seq![
            "--start="@ + seconds_text(preview.seek as int),
            "--length="@ + int_text(secs as int),
            "--no-config"@,
            "--volume=70"@,
            "--terminal=no"@,
            preview.input@,
            if !video { "--video=no"@ } else { "--player-operation-mode=pseudo-gui"@ },
        ]);
        assert(args.deep_view() =~= preview_play_arg_list(*preview, secs, video, audio));
    }
    args
}

/// The length, in seconds, of a preview played from a chosen time.
pub const PREVIEW_SECS: i64 = 5;

/// The preview that toggling the player from `seek` microseconds plays:
/// the input of `media` from `seek` on.
pub fn preview_at(media: &Media, seek: i64) -> (p: Preview)
    ensures
        p.seek == seek,
        p.input@ == media.input@,
{
    Preview { seek, input: media.input.clone() }
}

/// The arguments with which toggling the preview from `seek` starts the
/// player: [`PREVIEW_SECS`] seconds of the input of `media` from `seek`,
/// with video and audio as `media` chooses.
pub fn toggle_preview_args(media: &Media, seek: i64) -> (args: Vec<String>)
    ensures
        args.deep_view() == preview_play_arg_list(
            Preview { seek, input: media.input },
            PREVIEW_SECS,
            media.use_video,
            media.use_audio,
        ),
{
    let p = preview_at(media, seek);
    let args = preview_play_args(&p, PREVIEW_SECS, media.use_video, media.use_audio);
    proof {
        assert(preview_play_arg_list(p, PREVIEW_SECS, media.use_video, media.use_audio)
            =~= preview_play_arg_list(Preview { seek, input: media.input }, PREVIEW_SECS, media.use_video, media.use_audio));
    }
    args
}

/// A preview run plays the audio exactly when it is wanted and shows the
/// video exactly when it is wanted: among its arguments other than the
/// input path, `--audio=no` occurs exactly when audio is not wanted,
/// whatever the video flag, `--video=no` exactly when video is not wanted,
/// and the window mode exactly when it is. The run starts at the preview's
/// time, lasts `secs` seconds and plays the preview's input.
#[verifier::rlimit(60)]
#[verifier::spinoff_prover]
pub proof fn lemma_preview_play_args_follow_flags(preview: Preview, secs: i64, video: bool, audio: bool)
    ensures
        ({
            let args = preview_play_arg_list(preview, secs, video, audio);
            let others = args.take(5) + args.skip(6);
            &&& args.len() > 6
            &&& args[0] == "--start="@ + seconds_text(preview.seek as int)
            &&& args[1] == "--length="@ + int_text(secs as int)
            &&& args[5] == preview.input@
            &&& (others.contains("--audio=no"@) <==> !audio)
            &&& (others.contains("--video=no"@) <==> !video)
            &&& (others.contains("--player-operation-mode=pseudo-gui"@) <==> video)
        }),
{
    reveal_strlit("--start=");
    reveal_strlit("--length=");
    reveal_strlit("--no-config");
    reveal_strlit("--volume=70");
    reveal_strlit("--terminal=no");
    reveal_strlit("--video=no");
    reveal_strlit("--audio=no");
    reveal_strlit("--player-operation-mode=pseudo-gui");
    let args = preview_play_arg_list(preview, secs, video, audio);
    let start = "--start="@ + seconds_text(preview.seek as int);
    let length = "--length="@ + int_text(secs as int);
    let mode = if !video { "--video=no"@ } else { "--player-operation-mode=pseudo-gui"@ };
    let tail: Seq<Seq<char>> = if !audio { seq!["--audio=no"@] } else { Seq::empty() };
    let others = args.take(5) + args.skip(6);
    assert(others =~= seq![start, length, "--no-config"@, "--volume=70"@, "--terminal=no"@, mode] + tail);
    assert(start[2] == 's' && length[2] == 'l');
    let an = "--audio=no"@;
    let vn = "--video=no"@;
    let pm = "--player-operation-mode=pseudo-gui"@;
    assert(an[2] == 'a' && vn[2] == 'v' && pm[2] == 'p');
    assert(vn[3] == 'i' && "--volume=70"@[3] == 'o');
    assert forall|i: int| 0 <= i < others.len() && others[i] == an implies !audio by {
        assert(others[i][2] == an[2]);
    }
    assert forall|i: int| 0 <= i < others.len() && others[i] == vn implies !video by {
        assert(others[i][2] == vn[2] && others[i][3] == vn[3]);
    }
    assert forall|i: int| 0 <= i < others.len() && others[i] == pm implies video by {
        assert(others[i][2] == pm[2]);
    }
    if !audio {
        assert(others[6] == an);
    }
    assert(others[5] == mode);
}

/// A player run plays each kind of stream exactly when it is wanted: among
/// its arguments other than the file's path, `--video=no`, `--audio=no`
/// and `--sub=no` each occur exactly when that kind is not wanted,
/// whatever the other flags. The run starts at `start` and lasts `length`
/// seconds of the file at `path`.
#[verifier::rlimit(60)]
#[verifier::spinoff_prover]
pub proof fn lemma_play_args_follow_flags(
    path: Seq<char>,
    start: usize,
    length: usize,
    video: bool,
    audio: bool,
    subs: bool,
)
    ensures
        ({
            let args = play_arg_list(path, start, length, video, audio, subs);
            let others = args.take(6) + args.skip(7);
            &&& args.len() >= 7
            &&& args[0] == "--start="@ + decimal(start as nat)
            &&& args[1] == "--length="@ + decimal(length as nat)
            &&& args[6] == path
            &&& (others.contains("--video=no"@) <==> !video)
            &&& (others.contains("--audio=no"@) <==> !audio)
            &&& (others.contains("--sub=no"@) <==> !subs)
        }),
{
    reveal_strlit("--start=");
    reveal_strlit("--length=");
    reveal_strlit("--no-config");
    reveal_strlit("--volume=70");
    reveal_strlit("--player-operation-mode=pseudo-gui");
    reveal_strlit("--keep-open");
    reveal_strlit("--video=no");
    reveal_strlit("--audio=no");
    reveal_strlit("--sub=no");
    let args = play_arg_list(path, start, length, video, audio, subs);
    let s0 = "--start="@ + decimal(start as nat);
    let l0 = "--length="@ + decimal(length as nat);
    let tv: Seq<Seq<char>> = if !video { seq!["--video=no"@] } else { Seq::empty() };
    let ta: Seq<Seq<char>> = if !audio { seq!["--audio=no"@] } else { Seq::empty() };
    let ts: Seq<Seq<char>> = if !subs { seq!["--sub=no"@] } else { Seq::empty() };
    let fixed = seq![
        s0,
        l0,
        "--no-config"@,
        "--volume=70"@,
        "--player-operation-mode=pseudo-gui"@,
        "--keep-open"@,
    ];
    let others = args.take(6) + args.skip(7);
    assert(others =~= fixed + tv + ta + ts);
    let vn = "--video=no"@;
    let an = "--audio=no"@;
    let sn = "--sub=no"@;
    assert(s0[2] == 's' && s0[3] == 't' && l0[2] == 'l');
    assert(vn[2] == 'v' && vn[3] == 'i' && an[2] == 'a' && sn[2] == 's' && sn[3] == 'u');
    assert("--volume=70"@[3] == 'o');
    assert forall|i: int| 0 <= i < others.len() && others[i] == vn implies !video by {
        assert(others[i][2] == vn[2] && others[i][3] == vn[3]);
    }
    assert forall|i: int| 0 <= i < others.len() && others[i] == an implies !audio by {
        assert(others[i][2] == an[2]);
    }
    assert forall|i: int| 0 <= i < others.len() && others[i] == sn implies !subs by {
        assert(others[i][2] == sn[2] && others[i][3] == sn[3]);
    }
    if !video {
        assert(others[6] == vn);
    }
    if !audio {
        assert(others[(6 + tv.len()) as int] == an);
    }
    if !subs {
        assert(others[(6 + tv.len() + ta.len()) as int] == sn);
    }
}

} // verus!

//! The editor's state and how each message changes it.
//!
//! The user interface hands every message to [`State::update`], which
//! changes the state and answers with the actions to perform: messages to
//! send next, files to check or probe, dialogs to open, images to decode,
//! the player to toggle or the output to create. Actions that check or probe
//! something are answered with a message carrying the result.

use crate::decimal::{seconds_string, seconds_text};
use crate::media::player::{preview_play_arg_list, toggle_preview_args, PREVIEW_SECS};
use crate::media::preview::{Error, Preview};
use crate::media::{lemma_clamp_reasonable, saturate, Media, MediaType};
use crate::paths::{edited_path_of, modify_path, path_file_name, path_file_name_of, path_parent, path_parent_of, path_pushed, path_pushed_of};
use vstd::prelude::*;

verus! {

/// A key, as far as the editor tells keys apart.
#[derive(Debug, Clone, Copy, PartialEq, Eq, Structural)]
pub enum Key {
    Tab,
    ArrowRight,
    ArrowLeft,
    ArrowUp,
    ArrowDown,
    Enter,
    /// A key that types one character.
    Char(char),
    Other,
}

/// What the editor reacts to.
#[derive(Debug)]
pub enum Message {
    /// The input path was edited.
    InputChange(String),
    /// Whether the input path names a file; `None` when that could not be checked.
    InputChecked(Option<bool>),
    /// The output path was edited; `true` when it was generated from the input.
    OutputChange(String, bool),
    /// Whether the folder of the output exists; `None` when that could not be checked.
    OutputFolderChecked(Option<bool>),
    PickInput,
    PickOutput,
    /// The path picked as input, if any (and if it is text).
    InputPicked(Option<String>),
    /// The folder picked for the output, if any (and if it is text).
    OutputPicked(Option<String>),
    /// A new start time, in microseconds.
    StartChange(i64),
    /// A new end time, in microseconds.
    EndChange(i64),
    /// A new start time, to take effect at once.
    EagerStartChange(i64),
    /// A new end time, to take effect at once.
    EagerEndChange(i64),
    ToggleVideo,
    ToggleAudio,
    ToggleSubs,
    ToggleExtraStreams,
    Submitted,
    Update,
    /// The kinds of the input's streams and its duration in microseconds,
    /// or the `AVERROR` code of the failed probe.
    Probed(Result<(Vec<MediaType>, i64), i32>),
    /// The hash of the packet of the new start preview image, or why there is none.
    LoadedStartPreview(Result<u64, Error>),
    /// The hash of the packet of the new end preview image, or why there is none.
    LoadedEndPreview(Result<u64, Error>),
    /// Whether the start preview image could be allocated.
    AllocatedStartPreview(bool),
    /// Whether the end preview image could be allocated.
    AllocatedEndPreview(bool),
    PlayStartPreview,
    PlayEndPreview,
    /// A key was pressed, with shift held or not.
    KeyPressed(Key, bool),
    /// Any other event of the window.
    OtherEvent,
    Instantiate,
    /// The end of creating the output: how it went.
    InstantiateFinished(Result<(), String>),
}

/// What the user interface does for the editor.
#[derive(Debug)]
pub enum Action {
    /// Send this message next.
    Emit(Message),
    /// Check whether this input path names a file; answer with `InputChecked`.
    CheckInput(String),
    /// Check whether this output folder exists; answer with `OutputFolderChecked`.
    CheckFolder(String),
    /// Probe the streams of this input; answer with `Probed`.
    Probe(String),
    /// Let the user pick an input file; answer with `InputPicked`.
    PickFile,
    /// Let the user pick an output folder; answer with `OutputPicked`.
    PickFolder,
    FocusNext,
    FocusPrevious,
    CloseWindow,
    /// Allocate the start preview image just loaded; answer with `AllocatedStartPreview`.
    AllocateStart,
    /// Allocate the end preview image just loaded; answer with `AllocatedEndPreview`.
    AllocateEnd,
    /// Decode the start preview image (after aborting the one under way),
    /// given the hash of the last one; answer with `LoadedStartPreview`.
    DecodeStart(Preview, u64),
    /// Decode the end preview image (after aborting the one under way),
    /// given the hash of the last one; answer with `LoadedEndPreview`.
    DecodeEnd(Preview, u64),
    /// Stop the player if it is running, and otherwise start it with these arguments.
    TogglePlayer(Vec<String>),
    /// Run `ffmpeg` with these arguments; answer with `InstantiateFinished`.
    Create(Vec<String>),
}

/// The preview images: what they show and whether they are ready.
#[derive(Debug)]
pub struct PreviewState {
    pub last_start: Preview,
    pub last_end: Preview,
    pub last_start_hash: u64,
    pub last_end_hash: u64,
    /// Whether a start image is allocated.
    pub start_ready: bool,
    /// Whether an end image is allocated.
    pub end_ready: bool,
}

/// The editor's state.
#[derive(Debug)]
pub struct State {
    pub media: Media,
    pub input_changed: bool,
    pub input_exists: bool,
    /// The length of the input, in microseconds.
    pub input_length: i64,
    pub number_changed: bool,
    pub previews: PreviewState,
    pub output_is_generated: bool,
    pub output_folder_exists: bool,
    pub error: String,
    pub status: String,
}

/// What the status line shows.
#[derive(Debug, Clone, Copy, PartialEq, Eq, Structural)]
pub enum Notice {
    /// The error, which takes precedence.
    Error,
    /// The status.
    Status,
    /// Nothing.
    Nothing,
}

/// How far the keys move a time: one step, in microseconds.
pub const SMALL_STEP: i64 = 5_000_000;

/// How far the keys move a time: a long step, in microseconds.
pub const LARGE_STEP: i64 = 10_000_000;

/// `t + d`, kept within the range of `i64`.
pub fn shift_time(t: i64, d: i64) -> (r: i64)
    ensures
        r == saturate(t + d),
{
    let x: i128 = t as i128 + d as i128;
    if x < i64::MIN as i128 {
        i64::MIN
    } else if x > i64::MAX as i128 {
        i64::MAX
    } else {
        x as i64
    }
}

/// The time the end preview image is taken from, for an end at `end` in an
/// input of `len` microseconds: half a second earlier when the end lies
/// within a tenth of a second of the input's end, so that there is a frame.
pub open spec fn end_seek_of(end: i64, len: i64) -> i64 {
    if end as int > len as int - 100_000 {
        saturate(end - 500_000)
    } else {
        end
    }
}

/// The action that names the output after the input at `input`: the
/// message that the output path is now the edited copy's path, generated.
pub open spec fn is_output_generation(a: Action, input: Seq<char>) -> bool {
    a matches Action::Emit(Message::OutputChange(p, g)) && g && p@ == edited_path_of(input)
}

/// The message that moves the start of `m` (or, with shift, its end) by `d` microseconds.
pub open spec fn time_moved(m: Media, shift: bool, d: int) -> Seq<Action> {
    if shift {
        seq![Action::Emit(Message::EagerEndChange(saturate(m.end + d)))]
    } else {
        seq![Action::Emit(Message::EagerStartChange(saturate(m.start + d)))]
    }
}

/// The actions that a key press leads to, for the media `m`.
pub open spec fn key_actions(m: Media, key: Key, shift: bool) -> Seq<Action> {
    match key {
        Key::Tab => if shift { seq![Action::FocusPrevious] } else { seq![Action::FocusNext] },
        Key::ArrowRight | Key::Char('l') => time_moved(m, shift, (SMALL_STEP as int)),
        Key::ArrowLeft | Key::Char('h') => time_moved(m, shift, -(SMALL_STEP as int)),
        Key::ArrowUp | Key::Char('k') => time_moved(m, shift, (LARGE_STEP as int)),
        Key::ArrowDown | Key::Char('j') => time_moved(m, shift, -(LARGE_STEP as int)),
        Key::Char('v') => seq![Action::Emit(Message::ToggleVideo)],
        Key::Char('a') => seq![Action::Emit(Message::ToggleAudio)],
        Key::Char('s') => seq![Action::Emit(Message::ToggleSubs)],
        Key::Char('e') => seq![Action::Emit(Message::ToggleExtraStreams)],
        Key::Char('i') | Key::Char('f') => seq![Action::Emit(Message::PickInput)],
        Key::Char('o') | Key::Char('d') => seq![Action::Emit(Message::PickOutput)],
        Key::Char('p') => if shift {
            seq![Action::Emit(Message::PlayEndPreview)]
        } else {
            seq![Action::Emit(Message::PlayStartPreview)]
        },
        Key::Char('q') => seq![Action::CloseWindow],
        Key::Enter => if shift { seq![Action::Emit(Message::Instantiate)] } else { Seq::empty() },
        _ => Seq::empty(),
    }
}

/// The actions that a key press leads to (see [`key_actions`]): moving the
/// start (or, with shift, the end) by five or ten seconds, toggling streams,
/// picking files, playing previews, creating the output, closing the window,
/// and moving the focus.
pub fn key_pressed(m: &Media, key: Key, shift: bool) -> (acts: Vec<Action>)
    ensures
        acts@ == key_actions(*m, key, shift),
{
    let step: i64 = match key {
        Key::ArrowRight | Key::Char('l') => SMALL_STEP,
        Key::ArrowLeft | Key::Char('h') => -SMALL_STEP,
        Key::ArrowUp | Key::Char('k') => LARGE_STEP,
        Key::ArrowDown | Key::Char('j') => -LARGE_STEP,
        _ => 0,
    };
    let moved = if shift {
        Action::Emit(Message::EagerEndChange(shift_time(m.end, step)))
    } else {
        Action::Emit(Message::EagerStartChange(shift_time(m.start, step)))
    };
    let a = match key {
        Key::Tab => if shift { Some(Action::FocusPrevious) } else { Some(Action::FocusNext) },
        Key::ArrowRight | Key::Char('l') | Key::ArrowLeft | Key::Char('h') | Key::ArrowUp | Key::Char('k')
        | Key::ArrowDown | Key::Char('j') => Some(moved),
        Key::Char('v') => Some(Action::Emit(Message::ToggleVideo)),
        Key::Char('a') => Some(Action::Emit(Message::ToggleAudio)),
        Key::Char('s') => Some(Action::Emit(Message::ToggleSubs)),
        Key::Char('e') => Some(Action::Emit(Message::ToggleExtraStreams)),
        Key::Char('i') | Key::Char('f') => Some(Action::Emit(Message::PickInput)),
        Key::Char('o') | Key::Char('d') => Some(Action::Emit(Message::PickOutput)),
        Key::Char('p') => if shift {
            Some(Action::Emit(Message::PlayEndPreview))
        } else {
            Some(Action::Emit(Message::PlayStartPreview))
        },
        Key::Char('q') => Some(Action::CloseWindow),
        Key::Enter => if shift { Some(Action::Emit(Message::Instantiate)) } else { None },
        _ => None,
    };
    let mut acts: Vec<Action> = Vec::new();
    match a {
        Some(x) => acts.push(x),
        None => {},
    }
    proof {
        assert(acts@ =~= key_actions(*m, key, shift));
    }
    acts
}

impl State {
    /// The preview images after the times may have changed, and the images
    /// to decode: none when video is not used; otherwise the start image when
    /// its time or input changed, and likewise the end image.
    pub open spec fn preview_images(self) -> (PreviewState, Seq<Action>) {
        if !self.media.use_video {
            (self.previews, Seq::empty())
        } else {
            let start = Preview { seek: self.media.start, input: self.media.input };
            let end = Preview { seek: end_seek_of(self.media.end, self.input_length), input: self.media.input };
            let same_start = start.seek == self.previews.last_start.seek && start.input@
                == self.previews.last_start.input@;
            let same_end = end.seek == self.previews.last_end.seek && end.input@
                == self.previews.last_end.input@;
            let p1 = if same_start {
                self.previews
            } else {
                PreviewState { last_start: start, ..self.previews }
            };
            let a1: Seq<Action> = if same_start {
                Seq::empty()
            } else {
                seq![Action::DecodeStart(start, self.previews.last_start_hash)]
            };
            let p2 = if same_end { p1 } else { PreviewState { last_end: end, ..p1 } };
            let a2: Seq<Action> = if same_end {
                Seq::empty()
            } else {
                seq![Action::DecodeEnd(end, self.previews.last_end_hash)]
            };
            (p2, a1 + a2)
        }
    }

    /// Makes the start and end preview images follow the times; no effect
    /// if video is not used (see [`State::preview_images`]).
    pub fn create_preview_images(&mut self) -> (acts: Vec<Action>)
        ensures
            *final(self) == (State { previews: old(self).preview_images().0, ..*old(self) }),
            acts@ == old(self).preview_images().1,
    {
        let mut acts: Vec<Action> = Vec::new();
        if !self.media.use_video {
            return acts;
        }
        let start = Preview { seek: self.media.start, input: self.media.input.clone() };
        let end_seek = if self.media.end as i128 > self.input_length as i128 - 100_000 {
            shift_time(self.media.end, -500_000)
        } else {
            self.media.end
        };
        let end = Preview { seek: end_seek, input: self.media.input.clone() };
        if !(start == self.previews.last_start) {
            self.previews.last_start = start.clone();
            acts.push(Action::DecodeStart(start, self.previews.last_start_hash));
        }
        if !(end == self.previews.last_end) {
            self.previews.last_end = end.clone();
            acts.push(Action::DecodeEnd(end, self.previews.last_end_hash));
        }
        proof {
            assert(acts@ =~= old(self).preview_images().1);
        }
        acts
    }

    /// Makes the start and end reasonable for the input's length
    /// (see [`Media::clamp_numbers`]).
    pub fn clamp_numbers(&mut self)
        ensures
            *final(self) == (State { media: old(self).media.clamped(old(self).input_length), ..*old(self) }),
    {
        let len = self.input_length;
        self.media.clamp_numbers(len);
    }

    /// The action that names the output after the input.
    pub fn generate_output_path(&self) -> (a: Action)
        ensures
            is_output_generation(a, self.media.input@),
    {
        Action::Emit(Message::OutputChange(modify_path(self.media.input.clone()), true))
    }

    /// What checking the inputs does to `old` (giving `new` and the actions
    /// `acts`): when a time changed, the times are clamped, and, unless the
    /// input changed too, the preview images follow them; when the input
    /// changed, it is probed if it exists; otherwise, when there is an input
    /// but no output path, neither typed nor generated, one is generated.
    pub open spec fn check_inputs_post(old: State, new: State, acts: Seq<Action>) -> bool {
        let s1 = if old.number_changed {
            State { media: old.media.clamped(old.input_length), ..old }
        } else {
            old
        };
        let pv = if old.number_changed && !old.input_changed {
            s1.preview_images()
        } else {
            (s1.previews, Seq::<Action>::empty())
        };
        let generate = !old.input_changed && old.media.output@.len() == 0 && !old.output_is_generated
            && old.media.input@.len() > 0;
        &&& new == (State { previews: pv.0, number_changed: false, input_changed: false, ..s1 })
        &&& if old.input_changed && old.input_exists {
            acts == pv.1.push(Action::Probe(old.media.input))
        } else if generate {
            &&& acts.len() == pv.1.len() + 1
            &&& acts.take(pv.1.len() as int) == pv.1
            &&& is_output_generation(acts.last(), old.media.input@)
        } else {
            acts == pv.1
        }
    }

    /// Acts on changed inputs (see [`State::check_inputs_post`]).
    pub fn check_inputs(&mut self) -> (acts: Vec<Action>)
        ensures
            Self::check_inputs_post(*old(self), *final(self), acts@),
    {
        let mut acts: Vec<Action> = Vec::new();
        if self.number_changed {
            self.clamp_numbers();
            if !self.input_changed {
                acts = self.create_preview_images();
            }
            self.number_changed = false;
        }
        let ghost pv = acts@;
        if self.input_changed {
            if self.input_exists {
                acts.push(Action::Probe(self.media.input.clone()));
            }
            self.input_changed = false;
        } else if self.media.output.as_str().is_empty() && !self.output_is_generated
            && !self.media.input.as_str().is_empty() {
            acts.push(self.generate_output_path());
            proof {
                assert(acts@.take(pv.len() as int) =~= pv);
            }
        }
        acts
    }
}

impl State {
    /// What the result of probing the input does: nothing when the input is
    /// not known to exist (it is not opened then); on success the stream
    /// flags and the input length are taken from it, the end moves to the
    /// input's end, the output is named after the input when there is no
    /// output path or it was generated, and the inputs are checked again.
    pub open spec fn probed_post(
        old: State,
        new: State,
        result: Result<(Seq<MediaType>, i64), i32>,
        acts: Seq<Action>,
    ) -> bool {
        match result {
            Err(_) => new == old && acts.len() == 0,
            Ok(_) if !old.input_exists => new == old && acts.len() == 0,
            Ok((kinds, duration)) => {
                let generate = old.media.output@.len() == 0 || old.output_is_generated;
                &&& new == (State { media: old.media.probed(kinds), input_length: duration, ..old })
                &&& acts[0] == Action::Emit(Message::EndChange(duration))
                &&& acts.last() == Action::Emit(Message::Update)
                &&& if generate {
                    acts.len() == 3 && is_output_generation(acts[1], old.media.input@)
                } else {
                    acts.len() == 2
                }
            },
        }
    }

    /// Takes in the result of probing the input (see [`State::probed_post`]).
    pub fn update_from_input(&mut self, result: Result<(Vec<MediaType>, i64), i32>) -> (acts: Vec<Action>)
        ensures
            Self::probed_post(
                *old(self),
                *final(self),
                match result {
                    Ok((kinds, duration)) => Ok((kinds@, duration)),
                    Err(e) => Err(e),
                },
                acts@,
            ),
    {
        let mut acts: Vec<Action> = Vec::new();
        if !self.input_exists {
            return acts;
        }
        match result {
            Err(_) => {},
            Ok((kinds, duration)) => {
                let len = self.media.update_video_params(&kinds, duration);
                self.input_length = len;
                acts.push(Action::Emit(Message::EndChange(len)));
                if self.media.output.as_str().is_empty() || self.output_is_generated {
                    acts.push(self.generate_output_path());
                }
                acts.push(Action::Emit(Message::Update));
            },
        }
        acts
    }

    /// A fresh editor; given a first argument, it takes that as the input
    /// path and checks the inputs.
    pub fn new(first_arg: Option<String>) -> (r: (State, Vec<Action>))
        ensures
            r.0.media.input@.len() == 0 && r.0.media.output@.len() == 0,
            r.0.media.start == 0 && r.0.media.end == 0,
            !r.0.media.use_video && !r.0.media.use_audio && !r.0.media.use_subs && !r.0.media.use_extra_streams,
            !r.0.input_changed && !r.0.input_exists && !r.0.number_changed,
            !r.0.output_is_generated && !r.0.output_folder_exists,
            r.0.input_length == 0,
            r.0.error@.len() == 0 && r.0.status@.len() == 0,
            r.0.previews.last_start.seek == 0 && r.0.previews.last_start.input@.len() == 0,
            r.0.previews.last_end.seek == 0 && r.0.previews.last_end.input@.len() == 0,
            r.0.previews.last_start_hash == 0 && r.0.previews.last_end_hash == 0,
            !r.0.previews.start_ready && !r.0.previews.end_ready,
            r.1@ == match first_arg {
                Some(a) => seq![Action::Emit(Message::InputChange(a)), Action::Emit(Message::Update)],
                None => Seq::empty(),
            },
    {
        let state = State {
            media: Media::default(),
            input_changed: false,
            input_exists: false,
            input_length: 0,
            number_changed: false,
            previews: PreviewState {
                last_start: Preview::default(),
                last_end: Preview::default(),
                last_start_hash: 0,
                last_end_hash: 0,
                start_ready: false,
                end_ready: false,
            },
            output_is_generated: false,
            output_folder_exists: false,
            error: String::new(),
            status: String::new(),
        };
        let mut acts: Vec<Action> = Vec::new();
        match first_arg {
            Some(a) => {
                acts.push(Action::Emit(Message::InputChange(a)));
                acts.push(Action::Emit(Message::Update));
            },
            None => {},
        }
        (state, acts)
    }

    /// Whether the preview images are shown: video is used and both are ready.
    pub fn shows_previews(&self) -> (b: bool)
        ensures
            b == (self.media.use_video && self.previews.start_ready && self.previews.end_ready),
    {
        self.media.use_video && self.previews.start_ready && self.previews.end_ready
    }

    /// What the status line shows: the error if there is one, else the
    /// status if there is one.
    pub fn notice(&self) -> (n: Notice)
        ensures
            n == if self.error@.len() > 0 {
                Notice::Error
            } else if self.status@.len() > 0 {
                Notice::Status
            } else {
                Notice::Nothing
            },
    {
        if !self.error.as_str().is_empty() {
            Notice::Error
        } else if !self.status.as_str().is_empty() {
            Notice::Status
        } else {
            Notice::Nothing
        }
    }

    /// The text that tells how long the output will be.
    pub fn duration_text(&self) -> (t: String)
        ensures
            t@ == "Duration: "@ + seconds_text(saturate(self.media.end - self.media.start) as int) + " seconds"@,
    {
        let mut t = "Duration: ".to_owned();
        let diff: i128 = self.media.end as i128 - self.media.start as i128;
        let d: i64 = if diff < i64::MIN as i128 {
            i64::MIN
        } else if diff > i64::MAX as i128 {
            i64::MAX
        } else {
            diff as i64
        };
        t.append(seconds_string(d).as_str());
        t.append(" seconds");
        t
    }
}

/// The view of the result of a probe.
pub open spec fn probe_view(result: Result<(Vec<MediaType>, i64), i32>) -> Result<(Seq<MediaType>, i64), i32> {
    match result {
        Ok((kinds, duration)) => Ok((kinds@, duration)),
        Err(e) => Err(e),
    }
}

impl State {
    /// What `msg` does to the state `old`, giving `new` and the actions `acts`.
    pub open spec fn update_post(old: State, new: State, msg: Message, acts: Seq<Action>) -> bool {
        match msg {
            Message::InputChange(s) => {
                &&& new == (State { media: Media { input: s, ..old.media }, input_changed: true, ..old })
                &&& acts == seq![Action::CheckInput(s)]
            },
            Message::InputChecked(exists) => {
                &&& new == match exists {
                    Some(b) => State { input_exists: b, ..old },
                    None => old,
                }
                &&& acts.len() == 0
            },
            Message::OutputChange(s, generated) => {
                &&& new == (State {
                    media: Media { output: s, ..old.media },
                    output_is_generated: generated,
                    ..old
                })
                &&& match path_parent_of(s@) {
                    Some(parent) => acts.len() == 1 && (acts[0] matches Action::CheckFolder(p) && p@ == parent),
                    None => acts.len() == 0,
                }
            },
            Message::OutputFolderChecked(exists) => {
                &&& new == match exists {
                    Some(b) => State { output_folder_exists: b, ..old },
                    None => old,
                }
                &&& acts.len() == 0
            },
            Message::PickInput => new == old && acts == seq![Action::PickFile],
            Message::PickOutput => new == old && acts == seq![Action::PickFolder],
            Message::InputPicked(picked) => {
                &&& new == old
                &&& acts == match picked {
                    Some(p) => seq![Action::Emit(Message::InputChange(p)), Action::Emit(Message::Update)],
                    None => Seq::empty(),
                }
            },
            Message::OutputPicked(picked) => {
                &&& new == old
                &&& match picked {
                    Some(folder) => {
                        let name = match path_file_name_of(old.media.output@) {
                            Some(n) => n,
                            None => Seq::empty(),
                        };
                        &&& acts.len() == 1
                        &&& acts[0] matches Action::Emit(Message::OutputChange(p, g))
                        &&& !g
                        &&& p@ == path_pushed_of(folder@, name)
                    },
                    None => acts.len() == 0,
                }
            },
            Message::StartChange(v) => {
                &&& new == (State { media: Media { start: v, ..old.media }, number_changed: true, ..old })
                &&& acts.len() == 0
            },
            Message::EndChange(v) => {
                &&& new == (State { media: Media { end: v, ..old.media }, number_changed: true, ..old })
                &&& acts.len() == 0
            },
            Message::EagerStartChange(v) => Self::check_inputs_post(
                State { media: Media { start: v, ..old.media }, number_changed: true, ..old },
                new,
                acts,
            ),
            Message::EagerEndChange(v) => Self::check_inputs_post(
                State { media: Media { end: v, ..old.media }, number_changed: true, ..old },
                new,
                acts,
            ),
            Message::ToggleVideo => {
                &&& new == (State { media: Media { use_video: !old.media.use_video, ..old.media }, ..old })
                &&& acts.len() == 0
            },
            Message::ToggleAudio => {
                &&& new == (State { media: Media { use_audio: !old.media.use_audio, ..old.media }, ..old })
                &&& acts.len() == 0
            },
            Message::ToggleSubs => {
                &&& new == (State { media: Media { use_subs: !old.media.use_subs, ..old.media }, ..old })
                &&& acts.len() == 0
            },
            Message::ToggleExtraStreams => {
                &&& new == (State {
                    media: Media { use_extra_streams: !old.media.use_extra_streams, ..old.media },
                    ..old
                })
                &&& acts.len() == 0
            },
            Message::Submitted | Message::Update => Self::check_inputs_post(old, new, acts),
            Message::Probed(result) => Self::probed_post(old, new, probe_view(result), acts),
            Message::LoadedStartPreview(result) => match result {
                Ok(hash) => {
                    &&& new == (State { previews: PreviewState { last_start_hash: hash, ..old.previews }, ..old })
                    &&& acts == seq![Action::AllocateStart]
                },
                Err(_) => new == old && acts.len() == 0,
            },
            Message::LoadedEndPreview(result) => match result {
                Ok(hash) => {
                    &&& new == (State { previews: PreviewState { last_end_hash: hash, ..old.previews }, ..old })
                    &&& acts == seq![Action::AllocateEnd]
                },
                Err(_) => new == old && acts.len() == 0,
            },
            Message::AllocatedStartPreview(ok) => {
                &&& new == if ok {
                    State { previews: PreviewState { start_ready: true, ..old.previews }, ..old }
                } else {
                    old
                }
                &&& acts.len() == 0
            },
            Message::AllocatedEndPreview(ok) => {
                &&& new == if ok {
                    State { previews: PreviewState { end_ready: true, ..old.previews }, ..old }
                } else {
                    old
                }
                &&& acts.len() == 0
            },
            Message::PlayStartPreview => {
                &&& new == old
                &&& acts.len() == 1
                &&& acts[0] matches Action::TogglePlayer(args)
                &&& args.deep_view() == preview_play_arg_list(
                    Preview { seek: old.media.start, input: old.media.input },
                    PREVIEW_SECS,
                    old.media.use_video,
                    old.media.use_audio,
                )
            },
            Message::PlayEndPreview => {
                &&& new == old
                &&& acts.len() == 1
                &&& acts[0] matches Action::TogglePlayer(args)
                &&& args.deep_view() == preview_play_arg_list(
                    Preview { seek: saturate(old.media.end - PREVIEW_SECS * 1_000_000), input: old.media.input },
                    PREVIEW_SECS,
                    old.media.use_video,
                    old.media.use_audio,
                )
            },
            Message::KeyPressed(key, shift) => new == old && acts == key_actions(old.media, key, shift),
            Message::OtherEvent => new == old && acts.len() == 0,
            Message::Instantiate => {
                &&& new == (State { error: new.error, status: new.status, ..old })
                &&& new.error@.len() == 0
                &&& new.status@ == "Loading..."@
                &&& acts.len() == 1
                &&& acts[0] matches Action::Create(args)
                &&& args.deep_view() == old.media.ffmpeg_arg_list()
            },
            Message::InstantiateFinished(result) => match result {
                Ok(()) => {
                    &&& new == (State { status: new.status, ..old })
                    &&& new.status@ == "Finished"@
                    &&& acts == seq![Action::CloseWindow]
                },
                Err(e) => new == (State { error: e, ..old }) && acts.len() == 0,
            },
        }
    }

    /// Changes the state as `msg` asks, and returns the actions to perform
    /// in order (see [`State::update_post`]).
    #[verifier::rlimit(80)]
    #[verifier::spinoff_prover]
    pub fn update(&mut self, msg: Message) -> (acts: Vec<Action>)
        ensures
            Self::update_post(*old(self), *final(self), msg, acts@),
    {
        let mut acts: Vec<Action> = Vec::new();
        match msg {
            Message::InputChange(s) => {
                self.media.input = s;
                self.input_changed = true;
                acts.push(Action::CheckInput(self.media.input.clone()));
            },
            Message::InputChecked(exists) => {
                match exists {
                    Some(b) => self.input_exists = b,
                    None => {},
                }
            },
            Message::OutputChange(s, generated) => {
                self.media.output = s;
                self.output_is_generated = generated;
                match path_parent(self.media.output.as_str()) {
                    Some(parent) => acts.push(Action::CheckFolder(parent)),
                    None => {},
                }
            },
            Message::OutputFolderChecked(exists) => {
                match exists {
                    Some(b) => self.output_folder_exists = b,
                    None => {},
                }
            },
            Message::PickInput => acts.push(Action::PickFile),
            Message::PickOutput => acts.push(Action::PickFolder),
            Message::InputPicked(picked) => {
                match picked {
                    Some(p) => {
                        acts.push(Action::Emit(Message::InputChange(p)));
                        acts.push(Action::Emit(Message::Update));
                        assert(acts@ =~= seq![Action::Emit(Message::InputChange(p)), Action::Emit(Message::Update)]);
                    },
                    None => {},
                }
            },
            Message::OutputPicked(picked) => {
                match picked {
                    Some(folder) => {
                        let name = match path_file_name(self.media.output.as_str()) {
                            Some(n) => n,
                            None => String::new(),
                        };
                        let p = path_pushed(folder.as_str(), name.as_str());
                        acts.push(Action::Emit(Message::OutputChange(p, false)));
                    },
                    None => {},
                }
            },
            Message::StartChange(v) => {
                self.media.start = v;
                self.number_changed = true;
            },
            Message::EndChange(v) => {
                self.media.end = v;
                self.number_changed = true;
            },
            Message::EagerStartChange(v) => {
                self.media.start = v;
                self.number_changed = true;
                acts = self.check_inputs();
            },
            Message::EagerEndChange(v) => {
                self.media.end = v;
                self.number_changed = true;
                acts = self.check_inputs();
            },
            Message::ToggleVideo => self.media.use_video = !self.media.use_video,
            Message::ToggleAudio => self.media.use_audio = !self.media.use_audio,
            Message::ToggleSubs => self.media.use_subs = !self.media.use_subs,
            Message::ToggleExtraStreams => self.media.use_extra_streams = !self.media.use_extra_streams,
            Message::Submitted | Message::Update => {
                acts = self.check_inputs();
            },
            Message::Probed(result) => {
                acts = self.update_from_input(result);
            },
            Message::LoadedStartPreview(result) => {
                match result {
                    Ok(hash) => {
                        self.previews.last_start_hash = hash;
                        acts.push(Action::AllocateStart);
                    },
                    Err(_) => {},
                }
            },
            Message::LoadedEndPreview(result) => {
                match result {
                    Ok(hash) => {
                        self.previews.last_end_hash = hash;
                        acts.push(Action::AllocateEnd);
                    },
                    Err(_) => {},
                }
            },
            Message::AllocatedStartPreview(ok) => {
                if ok {
                    self.previews.start_ready = true;
                }
            },
            Message::AllocatedEndPreview(ok) => {
                if ok {
                    self.previews.end_ready = true;
                }
            },
            Message::PlayStartPreview => {
                acts.push(Action::TogglePlayer(toggle_preview_args(&self.media, self.media.start)));
            },
            Message::PlayEndPreview => {
                let seek = shift_time(self.media.end, -(PREVIEW_SECS * 1_000_000));
                acts.push(Action::TogglePlayer(toggle_preview_args(&self.media, seek)));
            },
            Message::KeyPressed(key, shift) => {
                acts = key_pressed(&self.media, key, shift);
            },
            Message::OtherEvent => {},
            Message::Instantiate => {
                self.error = String::new();
                self.status = "Loading...".to_owned();
                acts.push(Action::Create(self.media.ffmpeg_args()));
            },
            Message::InstantiateFinished(result) => {
                match result {
                    Ok(()) => {
                        self.status = "Finished".to_owned();
                        acts.push(Action::CloseWindow);
                    },
                    Err(e) => self.error = e,
                }
            },
        }
        acts
    }
}

/// The letter keys move times as the arrow keys do: `l` as right, `h` as
/// left, `k` as up and `j` as down. Right and left move the start (with
/// shift, the end) five seconds later and earlier; up and down move it ten
/// seconds later and earlier.
pub proof fn lemma_time_keys(m: Media, shift: bool)
    ensures
        key_actions(m, Key::Char('l'), shift) == key_actions(m, Key::ArrowRight, shift),
        key_actions(m, Key::Char('h'), shift) == key_actions(m, Key::ArrowLeft, shift),
        key_actions(m, Key::Char('k'), shift) == key_actions(m, Key::ArrowUp, shift),
        key_actions(m, Key::Char('j'), shift) == key_actions(m, Key::ArrowDown, shift),
        key_actions(m, Key::ArrowRight, false) == seq![Action::Emit(Message::EagerStartChange(saturate(m.start + 5_000_000)))],
        key_actions(m, Key::ArrowLeft, false) == seq![Action::Emit(Message::EagerStartChange(saturate(m.start - 5_000_000)))],
        key_actions(m, Key::ArrowUp, false) == seq![Action::Emit(Message::EagerStartChange(saturate(m.start + 10_000_000)))],
        key_actions(m, Key::ArrowDown, false) == seq![Action::Emit(Message::EagerStartChange(saturate(m.start - 10_000_000)))],
        key_actions(m, Key::ArrowRight, true) == seq![Action::Emit(Message::EagerEndChange(saturate(m.end + 5_000_000)))],
        key_actions(m, Key::ArrowLeft, true) == seq![Action::Emit(Message::EagerEndChange(saturate(m.end - 5_000_000)))],
        key_actions(m, Key::ArrowUp, true) == seq![Action::Emit(Message::EagerEndChange(saturate(m.end + 10_000_000)))],
        key_actions(m, Key::ArrowDown, true) == seq![Action::Emit(Message::EagerEndChange(saturate(m.end - 10_000_000)))],
{
}

/// The other keys, with or without shift: `v`, `a`, `s` and `e` toggle
/// video, audio, subtitles and extra streams; `i` or `f` picks the input
/// and `o` or `d` the output folder; `p` plays the start preview (with
/// shift, the end preview); `q` closes the window; shift-Enter creates the
/// output and Enter alone does nothing; Tab moves the focus forward (with
/// shift, back); other keys do nothing.
pub proof fn lemma_command_keys(m: Media, shift: bool)
    ensures
        key_actions(m, Key::Char('v'), shift) == seq![Action::Emit(Message::ToggleVideo)],
        key_actions(m, Key::Char('a'), shift) == seq![Action::Emit(Message::ToggleAudio)],
        key_actions(m, Key::Char('s'), shift) == seq![Action::Emit(Message::ToggleSubs)],
        key_actions(m, Key::Char('e'), shift) == seq![Action::Emit(Message::ToggleExtraStreams)],
        key_actions(m, Key::Char('i'), shift) == seq![Action::Emit(Message::PickInput)],
        key_actions(m, Key::Char('f'), shift) == seq![Action::Emit(Message::PickInput)],
        key_actions(m, Key::Char('o'), shift) == seq![Action::Emit(Message::PickOutput)],
        key_actions(m, Key::Char('d'), shift) == seq![Action::Emit(Message::PickOutput)],
        key_actions(m, Key::Char('p'), false) == seq![Action::Emit(Message::PlayStartPreview)],
        key_actions(m, Key::Char('p'), true) == seq![Action::Emit(Message::PlayEndPreview)],
        key_actions(m, Key::Char('q'), shift) == seq![Action::CloseWindow],
        key_actions(m, Key::Enter, true) == seq![Action::Emit(Message::Instantiate)],
        key_actions(m, Key::Enter, false).len() == 0,
        key_actions(m, Key::Tab, false) == seq![Action::FocusNext],
        key_actions(m, Key::Tab, true) == seq![Action::FocusPrevious],
        key_actions(m, Key::Other, shift).len() == 0,
{
}

/// Every preview the editor asks to decode, and every preview it remembers
/// as shown, is of the media's input at the time it names: the start image
/// at the start, the end image at the end (or half a second before it, near
/// the input's end). A preview that is not asked for stays as it was.
pub proof fn lemma_previews_are_of_the_input(s: State)
    ensures
        ({
            let (p, acts) = s.preview_images();
            &&& forall|i: int|
                0 <= i < acts.len() ==> match #[trigger] acts[i] {
                    Action::DecodeStart(q, h) => q.input == s.media.input && q.seek == s.media.start && h
                        == s.previews.last_start_hash && p.last_start == q,
                    Action::DecodeEnd(q, h) => q.input == s.media.input && q.seek == (if s.media.end as int
                        > s.input_length as int - 100_000 {
                        saturate(s.media.end - 500_000)
                    } else {
                        s.media.end
                    }) && h == s.previews.last_end_hash && p.last_end == q,
                    _ => false,
                }
            &&& p.last_start == s.previews.last_start || p.last_start.input == s.media.input
            &&& p.last_end == s.previews.last_end || p.last_end.input == s.media.input
            &&& (p.last_start != s.previews.last_start ==> exists|i: int| 0 <= i < acts.len() && acts[i] is DecodeStart)
            &&& (p.last_end != s.previews.last_end ==> exists|i: int| 0 <= i < acts.len() && acts[i] is DecodeEnd)
            &&& p.last_start_hash == s.previews.last_start_hash && p.last_end_hash == s.previews.last_end_hash
            &&& p.start_ready == s.previews.start_ready && p.end_ready == s.previews.end_ready
        }),
{
    let (p, acts) = s.preview_images();
    if s.media.use_video {
        if acts.len() > 0 {
            assert(acts[0] is DecodeStart || acts[0] is DecodeEnd);
        }
        if acts.len() > 1 {
            assert(acts[1] is DecodeEnd);
        }
    }
}

/// Checking the inputs decodes, probes and names the output only from the
/// media's input: every preview it asks to decode is of the input, a probe
/// is of the input, and the state's input stays the same.
pub proof fn lemma_check_inputs_uses_the_input(old: State, new: State, acts: Seq<Action>)
    requires
        State::check_inputs_post(old, new, acts),
    ensures
        new.media.input == old.media.input,
        forall|i: int|
            0 <= i < acts.len() ==> match #[trigger] acts[i] {
                Action::DecodeStart(q, _) => q.input == old.media.input,
                Action::DecodeEnd(q, _) => q.input == old.media.input,
                Action::Probe(p) => p == old.media.input,
                Action::Emit(Message::OutputChange(p, g)) => g && p@ == edited_path_of(old.media.input@),
                _ => false,
            },
{
    let s1 = if old.number_changed {
        State { media: old.media.clamped(old.input_length), ..old }
    } else {
        old
    };
    lemma_previews_are_of_the_input(s1);
    let pv = if old.number_changed && !old.input_changed {
        s1.preview_images()
    } else {
        (s1.previews, Seq::<Action>::empty())
    };
    assert forall|i: int| 0 <= i < acts.len() implies match #[trigger] acts[i] {
        Action::DecodeStart(q, _) => q.input == old.media.input,
        Action::DecodeEnd(q, _) => q.input == old.media.input,
        Action::Probe(p) => p == old.media.input,
        Action::Emit(Message::OutputChange(p, g)) => g && p@ == edited_path_of(old.media.input@),
        _ => false,
    } by {
        if i < pv.1.len() {
            assert(acts[i] == pv.1[i]);
        }
    }
}

/// Once the preview images follow the times, checking again decodes
/// nothing: the same image is never loaded twice in a row.
pub proof fn lemma_preview_images_settle(s: State)
    ensures
        (State { previews: s.preview_images().0, ..s }).preview_images().1.len() == 0,
{
}

/// A time changed at once, by a slider or a key, is made reasonable right
/// away: neither time is negative, the start is no later than the end, and
/// the end lies within the input when its length is known.
pub proof fn lemma_eager_change_reasonable(old: State, new: State, msg: Message, acts: Seq<Action>)
    requires
        msg is EagerStartChange || msg is EagerEndChange,
        State::update_post(old, new, msg, acts),
    ensures
        0 <= new.media.start <= new.media.end,
        new.input_length >= 0 ==> new.media.end <= new.input_length,
{
    match msg {
        Message::EagerStartChange(v) => lemma_clamp_reasonable(Media { start: v, ..old.media }, old.input_length),
        Message::EagerEndChange(v) => lemma_clamp_reasonable(Media { end: v, ..old.media }, old.input_length),
        _ => {},
    }
}

/// Only editing the input path changes it, and only editing the output
/// path changes that: every other message leaves both paths as they were.
pub proof fn lemma_paths_change_only_when_edited(old: State, new: State, msg: Message, acts: Seq<Action>)
    requires
        State::update_post(old, new, msg, acts),
    ensures
        !(msg is InputChange) ==> new.media.input == old.media.input,
        !(msg is OutputChange) ==> new.media.output == old.media.output,
{
}

/// Checking the inputs leaves nothing pending: afterwards neither the
/// times nor the input count as changed, so checking again at once clamps,
/// decodes and probes nothing.
pub proof fn lemma_check_inputs_settles(old: State, new: State, acts: Seq<Action>)
    requires
        State::check_inputs_post(old, new, acts),
    ensures
        !new.number_changed,
        !new.input_changed,
{
}

} // verus!

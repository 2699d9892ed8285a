use twedia::media::preview::{Error, Preview};
use twedia::media::MediaType;
use twedia::state::{key_pressed, Action, Key, Message, Notice, State};

fn ready_state() -> State {
    let (mut s, _) = State::new(None);
    s.media.input = String::from("/v/clip.mp4");
    s.media.output = String::from("/v/clip_edited.mp4");
    s.media.use_video = true;
    s.input_length = 100_000_000;
    s.media.end = 100_000_000;
    s
}

#[test]
fn new_takes_first_argument_as_input() {
    let (s, acts) = State::new(Some(String::from("/v/a.mkv")));
    assert!(s.media.input.is_empty() && !s.input_changed);
    assert_eq!(acts.len(), 2);
    assert!(matches!(&acts[0], Action::Emit(Message::InputChange(p)) if p == "/v/a.mkv"));
    assert!(matches!(&acts[1], Action::Emit(Message::Update)));
    let (_, acts) = State::new(None);
    assert!(acts.is_empty());
}

#[test]
fn input_change_checks_and_probes_the_input() {
    let (mut s, _) = State::new(None);
    let acts = s.update(Message::InputChange(String::from("/v/a.mkv")));
    assert!(matches!(&acts[..], [Action::CheckInput(p)] if p == "/v/a.mkv"));
    assert!(s.input_changed);
    assert!(s.update(Message::InputChecked(Some(true))).is_empty());
    assert!(s.input_exists);
    let acts = s.update(Message::Update);
    assert!(matches!(&acts[..], [Action::Probe(p)] if p == "/v/a.mkv"));
    assert!(!s.input_changed);

    let acts = s.update(Message::Probed(Ok((vec![MediaType::Video, MediaType::Audio], 90_000_000))));
    assert_eq!(s.input_length, 90_000_000);
    assert!(s.media.use_video && s.media.use_audio && !s.media.use_subs && !s.media.use_extra_streams);
    assert_eq!(acts.len(), 3);
    assert!(matches!(&acts[0], Action::Emit(Message::EndChange(90_000_000))));
    assert!(matches!(&acts[1], Action::Emit(Message::OutputChange(p, true)) if p == "/v/a_edited.mkv"));
    assert!(matches!(&acts[2], Action::Emit(Message::Update)));
}

#[test]
fn missing_input_is_not_probed() {
    let (mut s, _) = State::new(None);
    s.update(Message::InputChange(String::from("/nope")));
    s.update(Message::InputChecked(Some(false)));
    assert!(s.update(Message::Update).is_empty());
    assert!(!s.input_changed);
    let acts = s.update(Message::Update);
    assert!(matches!(&acts[..], [Action::Emit(Message::OutputChange(p, true))] if p == "/nope_edited.mkv"));
}

#[test]
fn failed_probe_changes_nothing() {
    let mut s = ready_state();
    assert!(s.update(Message::Probed(Err(-2))).is_empty());
    assert_eq!(s.input_length, 100_000_000);
}

#[test]
fn output_change_checks_its_folder() {
    let (mut s, _) = State::new(None);
    let acts = s.update(Message::OutputChange(String::from("/tmp/x.mkv"), false));
    assert!(matches!(&acts[..], [Action::CheckFolder(p)] if p == "/tmp"));
    s.update(Message::OutputFolderChecked(Some(true)));
    assert!(s.output_folder_exists);
    s.update(Message::OutputFolderChecked(None));
    assert!(s.output_folder_exists);
    assert!(s.update(Message::OutputChange(String::from("/"), true)).is_empty());
    assert!(s.output_is_generated);
}

#[test]
fn picked_folder_keeps_output_file_name() {
    let s0 = ready_state();
    let mut s = ready_state();
    let acts = s.update(Message::OutputPicked(Some(String::from("/w"))));
    assert!(matches!(&acts[..], [Action::Emit(Message::OutputChange(p, false))] if p == "/w/clip_edited.mp4"));
    assert_eq!(s.media, s0.media);
    assert!(s.update(Message::OutputPicked(None)).is_empty());
    let acts = s.update(Message::InputPicked(Some(String::from("/k.mp4"))));
    assert_eq!(acts.len(), 2);
    assert!(matches!(&acts[1], Action::Emit(Message::Update)));
}

#[test]
fn eager_changes_clamp_and_decode_previews() {
    let mut s = ready_state();
    let acts = s.update(Message::EagerStartChange(-5));
    assert_eq!(s.media.start, 0);
    assert!(!s.number_changed);
    assert_eq!(acts.len(), 2);
    assert!(matches!(&acts[0], Action::DecodeStart(p, 0) if p.seek == 0 && p.input == "/v/clip.mp4"));
    // the end lies at the input's end, so its image is taken half a second earlier
    assert!(matches!(&acts[1], Action::DecodeEnd(p, 0) if p.seek == 99_500_000));
    assert_eq!(s.previews.last_start, Preview { seek: 0, input: String::from("/v/clip.mp4") });

    // nothing changed: nothing is decoded again
    let acts = s.update(Message::EagerStartChange(0));
    assert!(acts.is_empty());

    let acts = s.update(Message::EagerEndChange(200_000_000));
    assert_eq!(s.media.end, 100_000_000);
    assert!(acts.is_empty());

    let acts = s.update(Message::EagerEndChange(50_000_000));
    assert!(matches!(&acts[..], [Action::DecodeEnd(p, 0)] if p.seek == 50_000_000));
}

#[test]
fn no_previews_without_video() {
    let mut s = ready_state();
    s.update(Message::ToggleVideo);
    assert!(!s.media.use_video);
    assert!(s.update(Message::EagerStartChange(1_000_000)).is_empty());
    assert_eq!(s.media.start, 1_000_000);
}

#[test]
fn loaded_previews_are_allocated() {
    let mut s = ready_state();
    let acts = s.update(Message::LoadedStartPreview(Ok(77)));
    assert!(matches!(&acts[..], [Action::AllocateStart]));
    assert_eq!(s.previews.last_start_hash, 77);
    assert!(s.update(Message::LoadedEndPreview(Err(Error::SameHash))).is_empty());
    assert_eq!(s.previews.last_end_hash, 0);
    s.update(Message::AllocatedStartPreview(true));
    assert!(!s.shows_previews());
    s.update(Message::AllocatedEndPreview(true));
    assert!(s.shows_previews());
}

#[test]
fn keys_move_times_and_toggle() {
    let s = ready_state();
    let acts = key_pressed(&s.media, Key::ArrowRight, false);
    assert!(matches!(&acts[..], [Action::Emit(Message::EagerStartChange(5_000_000))]));
    let acts = key_pressed(&s.media, Key::Char('j'), true);
    assert!(matches!(&acts[..], [Action::Emit(Message::EagerEndChange(90_000_000))]));
    let acts = key_pressed(&s.media, Key::Char('h'), false);
    assert!(matches!(&acts[..], [Action::Emit(Message::EagerStartChange(-5_000_000))]));
    assert!(matches!(&key_pressed(&s.media, Key::Char('v'), false)[..], [Action::Emit(Message::ToggleVideo)]));
    assert!(matches!(&key_pressed(&s.media, Key::Char('p'), true)[..], [Action::Emit(Message::PlayEndPreview)]));
    assert!(matches!(&key_pressed(&s.media, Key::Char('q'), false)[..], [Action::CloseWindow]));
    assert!(matches!(&key_pressed(&s.media, Key::Tab, true)[..], [Action::FocusPrevious]));
    assert!(matches!(&key_pressed(&s.media, Key::Enter, true)[..], [Action::Emit(Message::Instantiate)]));
    assert!(key_pressed(&s.media, Key::Enter, false).is_empty());
    assert!(key_pressed(&s.media, Key::Char('L'), true).is_empty());
    assert!(key_pressed(&s.media, Key::Other, false).is_empty());
    let mut s2 = ready_state();
    let acts = s2.update(Message::KeyPressed(Key::ArrowUp, true));
    assert!(matches!(&acts[..], [Action::Emit(Message::EagerEndChange(110_000_000))]));
}

#[test]
fn playing_previews_toggles_the_player() {
    let mut s = ready_state();
    s.media.start = 3_000_000;
    let acts = s.update(Message::PlayEndPreview);
    match &acts[..] {
        [Action::TogglePlayer(args)] => {
            assert_eq!(args[0], "--start=95");
            assert_eq!(args[5], "/v/clip.mp4");
        }
        _ => panic!("expected one toggle"),
    }
    let acts = s.update(Message::PlayStartPreview);
    assert!(matches!(&acts[..], [Action::TogglePlayer(args)] if args[0] == "--start=3"));
}

#[test]
fn instantiate_creates_then_closes() {
    let mut s = ready_state();
    s.error = String::from("old");
    let acts = s.update(Message::Instantiate);
    assert_eq!(s.status, "Loading...");
    assert!(s.error.is_empty());
    match &acts[..] {
        [Action::Create(args)] => {
            assert_eq!(args[..6], ["-ss", "0", "-to", "100", "-i", "/v/clip.mp4"]);
            assert_eq!(args.last().unwrap(), "/v/clip_edited.mp4");
        }
        _ => panic!("expected a create action"),
    }
    let acts = s.update(Message::InstantiateFinished(Err(String::from("ffmpeg returned 1"))));
    assert!(acts.is_empty());
    assert_eq!(s.error, "ffmpeg returned 1");
    let acts = s.update(Message::InstantiateFinished(Ok(())));
    assert!(matches!(&acts[..], [Action::CloseWindow]));
    assert_eq!(s.status, "Finished");
}

#[test]
fn duration_text_in_seconds() {
    let mut s = ready_state();
    s.media.start = 1_500_000;
    assert_eq!(s.duration_text(), "Duration: 98.5 seconds");
}

#[test]
fn notice_prefers_errors() {
    let mut s = ready_state();
    assert_eq!(s.notice(), Notice::Nothing);
    s.status = String::from("Loading...");
    assert_eq!(s.notice(), Notice::Status);
    s.error = String::from("bad");
    assert_eq!(s.notice(), Notice::Error);
}

#[test]
fn probe_of_missing_input_changes_nothing() {
    let mut s = ready_state();
    s.input_exists = false;
    let acts = s.update(Message::Probed(Ok((vec![MediaType::Audio], 5))));
    assert!(acts.is_empty());
    assert_eq!(s.input_length, 100_000_000);
    assert!(s.media.use_video && !s.media.use_audio);
}

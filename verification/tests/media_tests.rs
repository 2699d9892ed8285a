use twedia::decimal::{int_string, seconds_string};
use twedia::media::player::{
    is_active, play_args, preview_play_args, preview_window, toggle_preview_args, toggle_step, ChildState,
    PlayerStep,
};
use twedia::media::preview::{frame_step, packet_step, rgb_to_rgba, Error, FrameStep, PacketStep, Preview};
use twedia::media::{packet_cutoff, packet_in_range, Media, MediaType, PreviewError};
use twedia::utils::hash_chunk;

fn media(start: i64, end: i64) -> Media {
    Media {
        start,
        end,
        input: String::from("in.mkv"),
        output: String::from("out.mkv"),
        use_video: true,
        use_audio: true,
        use_subs: true,
        use_extra_streams: true,
    }
}

fn strings(v: &[&str]) -> Vec<String> {
    v.iter().map(|s| s.to_string()).collect()
}

#[test]
fn seconds_are_written_like_floats() {
    assert_eq!(seconds_string(60_000_000), "60");
    assert_eq!(seconds_string(60_500_000), "60.5");
    assert_eq!(seconds_string(1), "0.000001");
    assert_eq!(seconds_string(0), "0");
    assert_eq!(seconds_string(-500_000), "-0.5");
    assert_eq!(seconds_string(1_234_567_890), "1234.56789");
    for us in [0i64, 1, 10, 100_000, 120_000_000, 3_600_250_000, 59_999_999, -7_000_001] {
        assert_eq!(seconds_string(us), format!("{}", us as f64 / 1_000_000.0));
    }
}

#[test]
fn integers_are_written_in_decimal() {
    assert_eq!(int_string(0), "0");
    assert_eq!(int_string(5), "5");
    assert_eq!(int_string(-42), "-42");
    assert_eq!(int_string(i64::MIN), i64::MIN.to_string());
    assert_eq!(int_string(i64::MAX), i64::MAX.to_string());
}

#[test]
fn clamp_numbers_keeps_times_within_the_input() {
    let mut m = media(-3, 200);
    m.clamp_numbers(120);
    assert_eq!((m.start, m.end), (0, 120));

    let mut m = media(150, 100);
    m.clamp_numbers(120);
    assert_eq!((m.start, m.end), (100, 100));

    let mut m = media(50, -1);
    m.clamp_numbers(120);
    assert_eq!((m.start, m.end), (0, 0));

    let mut m = media(10, 20);
    m.clamp_numbers(120);
    assert_eq!((m.start, m.end), (10, 20));
    assert_eq!(m, media(10, 20));
}

#[test]
fn clamp_numbers_is_idempotent() {
    for (s, e, l) in [(-5, 300, 100), (80, 20, 100), (7, 9, -4), (3, 4, 10)] {
        let mut once = media(s, e);
        once.clamp_numbers(l);
        let mut twice = once.clone();
        twice.clamp_numbers(l);
        assert_eq!(once, twice);
    }
}

#[test]
fn clamp_numbers_with_unknown_length() {
    // a negative length is an unknown duration: it bounds nothing
    let mut m = media(10, 20);
    m.clamp_numbers(-4);
    assert_eq!((m.start, m.end), (10, 20));

    let mut m = media(-3, -7);
    m.clamp_numbers(i64::MIN);
    assert_eq!((m.start, m.end), (0, 0));

    let mut m = media(30, 20);
    m.clamp_numbers(-1);
    assert_eq!((m.start, m.end), (20, 20));
}

#[test]
fn update_video_params_takes_flags_from_streams() {
    let mut m = media(0, 0);
    let len = m.update_video_params(&vec![MediaType::Video, MediaType::Audio, MediaType::Subtitle], 60_575_000);
    assert_eq!(len, 60_575_000);
    assert!(m.use_video && m.use_audio && m.use_subs && !m.use_extra_streams);

    let len = m.update_video_params(&vec![MediaType::Video, MediaType::Video, MediaType::Data], 5);
    assert_eq!(len, 5);
    assert!(m.use_video && !m.use_audio && !m.use_subs && m.use_extra_streams);

    let _ = m.update_video_params(&vec![], 0);
    assert!(!m.use_video && !m.use_audio && !m.use_subs && !m.use_extra_streams);
}

#[test]
fn update_video_params_uses_every_kind_that_exists() {
    let mut m = media(0, 0);
    m.update_video_params(&vec![MediaType::Audio], 1);
    assert!(!m.use_video && m.use_audio && !m.use_subs && !m.use_extra_streams);

    m.update_video_params(&vec![MediaType::Audio, MediaType::Video], 1);
    assert!(m.use_video && m.use_audio && !m.use_extra_streams);

    m.update_video_params(&vec![MediaType::Subtitle, MediaType::Audio, MediaType::Video, MediaType::Audio], 1);
    assert!(m.use_video && m.use_audio && m.use_subs && m.use_extra_streams);
}

#[test]
fn stream_mapping_numbers_kept_streams() {
    let mut m = media(0, 0);
    m.use_audio = false;
    let kinds = vec![MediaType::Video, MediaType::Audio, MediaType::Subtitle, MediaType::Attachment];
    assert_eq!(m.stream_mapping(&kinds), vec![0, -1, 1, 2]);
    m.use_extra_streams = false;
    m.use_video = false;
    assert_eq!(m.stream_mapping(&kinds), vec![-1, -1, 0, -1]);
    assert!(m.keeps(MediaType::Subtitle) && !m.keeps(MediaType::Unknown));
}

#[test]
fn packet_cutoff_rounds_to_the_time_base() {
    assert_eq!(packet_cutoff(120_000_000, 1, 1000), 120_000);
    assert_eq!(packet_cutoff(120_000_000, 1, 90_000), 10_800_000);
    assert_eq!(packet_cutoff(1, 1, 500_000), 1);
    assert_eq!(packet_cutoff(1, 1, 499_999), 0);
    assert_eq!(packet_cutoff(-1, 1, 500_000), -1);
    assert_eq!(packet_cutoff(1_000_000, 1, 0), 0);
    assert_eq!(packet_cutoff(i64::MAX, 1, i32::MAX), i64::MAX);
    assert!(packet_in_range(119_999, 120_000_000, 1, 1000));
    assert!(!packet_in_range(120_000, 120_000_000, 1, 1000));
}

#[test]
fn ffmpeg_args_copy_the_chosen_streams() {
    let m = media(60_000_000, 120_500_000);
    assert_eq!(
        m.ffmpeg_args(),
        strings(&[
            "-ss", "60", "-to", "120.5", "-i", "in.mkv", "-c:a", "copy", "-c:v", "copy", "-c:s", "copy", "-map", "0",
            "out.mkv"
        ])
    );
    let mut m = media(0, 1_000);
    m.use_audio = false;
    m.use_video = false;
    m.use_subs = false;
    m.use_extra_streams = false;
    assert_eq!(
        m.ffmpeg_args(),
        strings(&["-ss", "0", "-to", "0.001", "-i", "in.mkv", "-an", "-vn", "-sn", "out.mkv"])
    );
}

#[test]
fn player_arguments() {
    assert_eq!(
        play_args("a.mkv", 60, 5, true, false, false),
        strings(&[
            "--start=60",
            "--length=5",
            "--no-config",
            "--volume=70",
            "--player-operation-mode=pseudo-gui",
            "--keep-open",
            "a.mkv",
            "--audio=no",
            "--sub=no"
        ])
    );
    let p = Preview { seek: 61_500_000, input: String::from("b.mp4") };
    assert_eq!(
        preview_play_args(&p, 5, false, true),
        strings(&["--start=61.5", "--length=5", "--no-config", "--volume=70", "--terminal=no", "b.mp4", "--video=no"])
    );
    let m = media(0, 10);
    assert_eq!(
        toggle_preview_args(&m, 2_000_000),
        strings(&[
            "--start=2",
            "--length=5",
            "--no-config",
            "--volume=70",
            "--terminal=no",
            "in.mkv",
            "--player-operation-mode=pseudo-gui"
        ])
    );
}

#[test]
fn preview_window_rounds_to_seconds() {
    assert_eq!(preview_window(&media(60_400_000, 90_600_000)), (60, 30));
    assert_eq!(preview_window(&media(59_500_000, 60_000_000)), (60, 1));
    assert_eq!(preview_window(&media(-3_000_000, -1_000_000)), (0, 2));
    assert_eq!(preview_window(&media(5_000_000, 1_000_000)), (5, 0));
}

#[test]
fn toggling_kills_only_a_running_player() {
    assert_eq!(toggle_step(ChildState::Running), PlayerStep::Kill);
    assert_eq!(toggle_step(ChildState::Absent), PlayerStep::Play);
    assert_eq!(toggle_step(ChildState::Exited { success: false }), PlayerStep::Play);
    assert_eq!(toggle_step(ChildState::Unknown), PlayerStep::Play);
    assert!(is_active(ChildState::Running) && !is_active(ChildState::Exited { success: true }));
}

#[test]
fn packet_steps() {
    let data = [9u8, 8, 7];
    assert_eq!(packet_step(0, &[]), PacketStep::Skip);
    let h = hash_chunk(&data);
    assert_eq!(packet_step(h, &data), PacketStep::Stop(Error::SameHash));
    assert_eq!(packet_step(h.wrapping_add(1), &data), PacketStep::Decode(h));
    assert_eq!(frame_step(Ok(())), FrameStep::Ready);
    assert_eq!(frame_step(Err(-11)), FrameStep::Retry);
    assert_eq!(frame_step(Err(-22)), FrameStep::Fail(Error::Raw(-22)));
    let e: PreviewError = Error::NoPackets;
    assert_ne!(e, Error::SameHash);
    assert_eq!(Error::SameHash.text().as_deref(), Some("same encoded hash"));
    assert_eq!(Error::NoPackets.text().as_deref(), Some("no valid packets in input"));
    assert_eq!(Error::Raw(-11).text(), None);
}

#[test]
fn rgb_becomes_rgba() {
    assert_eq!(rgb_to_rgba(&[1, 2, 3, 4, 5, 6]), vec![1, 2, 3, 255, 4, 5, 6, 255]);
    assert_eq!(rgb_to_rgba(&[1, 2, 3, 4]), vec![1, 2, 3, 255, 4]);
    assert_eq!(rgb_to_rgba(&[]), Vec::<u8>::new());
}

#[test]
fn previews_compare_by_time_and_input() {
    let a = Preview { seek: 1, input: String::from("x") };
    assert!(a == a.clone());
    assert!(a != Preview { seek: 2, input: String::from("x") });
    assert!(a != Preview { seek: 1, input: String::from("y") });
    assert!(Preview::default() == Preview { seek: 0, input: String::new() });
}

use n_audio::localization::{get_locale_denominator, get_locale_name, localized};
use n_audio::queue::LoopStatus;
use n_audio::settings::{Theme, WindowSize};
use n_audio::worker::{
    apply_message, continues_after, duration_ticks, packet_time, reports_end, ticks_to_ms,
    writes_output, ControlAction, DecodeEvent, WorkerState,
};
use n_audio::{remove_ext, strip_absolute_path, Message, TrackTime};

#[test]
fn remove_ext_keeps_inner_dots() {
    assert_eq!(remove_ext("file.1.txt"), "file.1");
    assert_eq!(remove_ext("/a/b/c.mp3"), "c");
    assert_eq!(remove_ext("noext"), "");
}

#[test]
fn strip_absolute_path_keeps_the_file_name() {
    assert_eq!(strip_absolute_path(String::from("/a/b/c.mp3")), "c.mp3");
    assert_eq!(strip_absolute_path(String::from("c.mp3")), "c.mp3");
}

#[test]
fn timestamps_format_as_clock() {
    let time = TrackTime {
        position_ms: 61_000,
        length_ms: 3_600_000,
    };
    assert_eq!(time.format_pos(), "01:01");
    assert_eq!(time.format_len(), "60:00");
    assert_eq!(TrackTime::default().format_pos(), "00:00");
    let long = TrackTime {
        position_ms: 7_265_999,
        length_ms: 0,
    };
    assert_eq!(long.format_pos(), "121:05");
}

#[test]
fn locale_lookup_falls_back_to_english() {
    assert_eq!(get_locale_name(Some("it")), "Italiano");
    assert_eq!(get_locale_name(Some("tlh")), "English");
    assert_eq!(get_locale_name(None), "English");
    assert_eq!(
        get_locale_denominator(Some(String::from("Italiano"))),
        "it"
    );
    assert_eq!(get_locale_denominator(Some(String::from("Klingon"))), "en");
    assert_eq!(get_locale_denominator(None), "en");
}

#[test]
fn missing_locale_entries_fall_back_to_english() {
    let english = String::from("Settings");
    assert_eq!(
        localized(&Some(String::from("Impostazioni")), &english),
        "Impostazioni"
    );
    assert_eq!(localized(&None, &english), "Settings");
}

#[test]
fn theme_codes_and_labels_round_trip() {
    for theme in [Theme::System, Theme::Light, Theme::Dark] {
        assert_eq!(Theme::from_code(theme.to_code()), Some(theme));
        assert_eq!(Theme::from_label(&theme.to_label()), Some(theme));
    }
    assert_eq!(Theme::from_code(3), None);
    assert_eq!(Theme::from_label(&String::from("Sepia")), None);
    assert_eq!(Theme::default(), Theme::System);
}

#[test]
fn defaults_are_as_documented() {
    let size = WindowSize::default();
    assert_eq!((size.width, size.height), (450, 625));
    assert_eq!(LoopStatus::default(), LoopStatus::Playlist);
    assert_eq!(TrackTime::default().length_ms, 0);
}

#[test]
fn control_messages_steer_the_worker_state() {
    let mut state = WorkerState::new(800, 1000);
    assert!(!state.is_paused);

    assert_eq!(apply_message(&mut state, Message::Pause), ControlAction::Proceed);
    assert!(state.is_paused);
    assert_eq!(apply_message(&mut state, Message::Play), ControlAction::Proceed);
    assert!(!state.is_paused);

    assert_eq!(
        apply_message(&mut state, Message::Volume(300)),
        ControlAction::Proceed
    );
    assert_eq!(state.volume, 300);
    assert_eq!(
        apply_message(&mut state, Message::PlaybackSpeed(2000)),
        ControlAction::Proceed
    );
    assert_eq!(state.speed, 2000);

    assert_eq!(
        apply_message(&mut state, Message::Seek(1500)),
        ControlAction::DoSeek(1500)
    );
    assert!(reports_end(&state));

    assert_eq!(apply_message(&mut state, Message::Exit), ControlAction::Quit);
    assert!(state.exit);
    assert!(!reports_end(&state));
}

#[test]
fn decode_taxonomy_matches_the_loop() {
    assert!(continues_after(DecodeEvent::Decoded));
    assert!(continues_after(DecodeEvent::CorruptPacket));
    assert!(!continues_after(DecodeEvent::FatalError));
    assert!(!continues_after(DecodeEvent::EndOfStream));
    assert!(writes_output(DecodeEvent::Decoded));
    assert!(!writes_output(DecodeEvent::CorruptPacket));
}

#[test]
fn tick_arithmetic_is_exact() {
    // A 1/48000 time base: 48000 ticks are one second.
    assert_eq!(ticks_to_ms(48000, 1, 48000), 1000);
    // Sub-millisecond remainders truncate.
    assert_eq!(ticks_to_ms(1, 1, 3), 333);
    assert_eq!(ticks_to_ms(2, 1, 3), 666);
    assert_eq!(ticks_to_ms(3000, 1, 3), 1_000_000);
    assert_eq!(duration_ticks(10, 20), 30);
    assert_eq!(duration_ticks(u64::MAX, 1), u64::MAX);
}

#[test]
fn track_length_comes_from_the_codec_parameters() {
    // 240 frames at 80 ticks per second: a three-second track.
    let length = n_audio::music_track::length_from_params(0, 240, 1, 80);
    assert_eq!(length.position_ms, 0);
    assert_eq!(length.length_ms, 3000);
    let offset = n_audio::music_track::length_from_params(80, 240, 1, 80);
    assert_eq!(offset.length_ms, 4000);
}

#[test]
fn reported_length_ignores_playback_speed() {
    // A three-second clip: the time snapshot never depends on the speed.
    let time = packet_time(48000, 144_000, 1, 48000);
    assert_eq!(time.position_ms, 1000);
    assert_eq!(time.length_ms, 3000);
}

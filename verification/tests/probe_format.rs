use n_audio::music_track::{select_tags, MusicTrack, TagKind};
use n_audio::probe::{has_dca_magic, next_frame, parse_dca_frames, probe_format, ProbeFormat};
use n_audio::NError;

fn dca_stream() -> Vec<u8> {
    let mut data = vec![0x44, 0x43, 0x41, 0x31]; // the magic
    data.extend_from_slice(&[0x00, 0x03, 1, 2, 3]); // a three-byte frame
    data.extend_from_slice(&[0x00, 0x00]); // an empty frame
    data.extend_from_slice(&[0x00, 0x05, 9]); // truncated: ends the stream
    data
}

#[test]
fn magic_is_recognised() {
    assert!(has_dca_magic(&dca_stream()));
    assert!(!has_dca_magic(&vec![0x44, 0x43, 0x41]));
    assert!(!has_dca_magic(&vec![0x4f, 0x67, 0x67, 0x53]));
}

#[test]
fn frames_are_length_prefixed_big_endian() {
    let mut long: Vec<u8> = vec![0x01, 0x01];
    long.extend(std::iter::repeat(0xaa).take(257));
    let (packet, next) = next_frame(&long, 0).unwrap();
    assert_eq!(packet.len(), 257);
    assert_eq!(next, 259);
}

#[test]
fn parse_stops_at_end_of_stream_without_error() {
    let data = dca_stream();
    let frames = parse_dca_frames(&data, 4);
    assert_eq!(frames, vec![vec![1, 2, 3], vec![]]);
}

#[test]
fn parse_of_empty_stream_is_empty() {
    let frames = parse_dca_frames(&Vec::new(), 0);
    assert!(frames.is_empty());
}

#[test]
fn probe_uses_extension_hint_first() {
    assert_eq!(
        probe_format(&String::from("dca"), &Vec::new()),
        Ok(ProbeFormat::Dca)
    );
    assert_eq!(
        probe_format(&String::from("mp3"), &Vec::new()),
        Ok(ProbeFormat::Standard)
    );
}

#[test]
fn probe_falls_back_to_content_sniffing() {
    assert_eq!(
        probe_format(&String::from("bin"), &dca_stream()),
        Ok(ProbeFormat::Dca)
    );
    assert_eq!(
        probe_format(&String::from("txt"), &vec![0, 1, 2, 3]),
        Err(NError::UnsupportedFormat)
    );
}

#[test]
fn unsupported_extension_fails_at_the_constructor() {
    // No probe session is ever opened: the constructor alone rejects it.
    let err = MusicTrack::new(String::from("/music/notes.txt")).unwrap_err();
    assert_eq!(err, NError::UnsupportedFormat);

    let err = MusicTrack::new(String::from("/music/no_extension")).unwrap_err();
    assert_eq!(err, NError::UnsupportedFormat);

    let err = MusicTrack::new(String::from("/music/.opus")).unwrap_err();
    assert_eq!(err, NError::UnsupportedFormat);
}

#[test]
fn supported_extension_builds_a_track() {
    let track = MusicTrack::new(String::from("/music/song.opus")).unwrap();
    assert_eq!(track.path(), "/music/song.opus");
    assert_eq!(track.ext(), "opus");
}

#[test]
fn later_tags_overwrite_earlier_ones() {
    let tags = vec![
        (TagKind::Artist, String::from("First")),
        (TagKind::Other, String::from("2024")),
        (TagKind::Artist, String::from("Second")),
        (TagKind::Title, String::from("A Song")),
    ];
    let (artist, title) = select_tags(&tags);
    assert_eq!(artist, "Second");
    assert_eq!(title, "A Song");

    let (artist, title) = select_tags(&Vec::new());
    assert_eq!(artist, "");
    assert_eq!(title, "");
}

#[test]
fn metadata_title_falls_back_to_file_name() {
    let track = MusicTrack::new(String::from("/music/song.mp3")).unwrap();
    let length = n_audio::TrackTime {
        position_ms: 0,
        length_ms: 123_000,
    };
    let meta = track.build_metadata(String::from("Someone"), String::new(), length);
    assert_eq!(meta.title, "song");
    assert_eq!(meta.artist, "Someone");
    assert_eq!(meta.time.position_ms, 0);
    assert_eq!(meta.time.length_ms, 123_000);

    let tagged = track.build_metadata(String::new(), String::from("A Song"), length);
    assert_eq!(tagged.title, "A Song");
}

use n_audio::player::{clamp_seek_target, Player};
use n_audio::{Message, TrackTime};

#[test]
fn new_player_starts_idle() {
    let player = Player::new(800, 1000);
    assert!(!player.is_playing());
    assert!(!player.is_paused());
    assert_eq!(player.get_volume(), 800);
}

#[test]
fn default_player_is_full_volume() {
    let player = Player::default();
    assert_eq!(player.get_volume(), 1000);
    assert!(!player.is_playing());
}

#[test]
fn pause_without_session_is_noop() {
    let mut player = Player::new(1000, 1000);
    assert!(player.pause().is_ok());
    assert!(!player.is_paused());
    assert!(player.unpause().is_ok());
    assert!(player.end_current().is_ok());
}

#[test]
fn pause_sends_message_and_sets_flag() {
    let mut player = Player::new(1000, 1000);
    let link = player.play();
    assert!(player.pause().is_ok());
    assert!(player.is_paused());
    assert_eq!(link.rx_control.try_recv().unwrap(), Message::Pause);
    assert!(player.unpause().is_ok());
    assert!(!player.is_paused());
    assert_eq!(link.rx_control.try_recv().unwrap(), Message::Play);
}

#[test]
fn set_volume_round_trip_without_worker_message() {
    let mut player = Player::new(1000, 1000);
    assert!(player.set_volume(300).is_ok());
    assert_eq!(player.get_volume(), 300);

    let link = player.play();
    assert!(player.set_volume(250).is_ok());
    assert_eq!(player.get_volume(), 250);
    assert_eq!(link.rx_control.try_recv().unwrap(), Message::Volume(250));
}

#[test]
fn playback_speed_needs_a_session() {
    let mut player = Player::new(1000, 1000);
    assert!(player.set_playback_speed(2000).is_ok());
    let link = player.play();
    assert_eq!(link.playback_speed, 1000);

    assert!(player.set_playback_speed(2000).is_ok());
    assert_eq!(
        link.rx_control.try_recv().unwrap(),
        Message::PlaybackSpeed(2000)
    );
    let second = player.play();
    assert_eq!(link.rx_control.try_recv().unwrap(), Message::Exit);
    assert_eq!(second.playback_speed, 2000);
}

#[test]
fn clamp_seek_target_clamps_to_length() {
    assert_eq!(clamp_seek_target(1, 500, 3000), 1500);
    assert_eq!(clamp_seek_target(3, 0, 3000), 3000);
    assert_eq!(clamp_seek_target(10, 0, 3000), 3000);
    assert_eq!(clamp_seek_target(0, 0, 3000), 0);
}

#[test]
fn seek_is_clamped_to_cached_length() {
    let mut player = Player::new(1000, 1000);
    let link = player.play();

    // No time snapshot yet: there is no safe upper bound, nothing is sent.
    assert!(player.seek_to(1, 0).is_ok());
    assert!(link.rx_control.try_recv().is_err());

    link.tx_time
        .send(Message::Time(TrackTime {
            position_ms: 1000,
            length_ms: 3000,
        }))
        .unwrap();
    assert_eq!(
        player.get_time(),
        Some(TrackTime {
            position_ms: 1000,
            length_ms: 3000,
        })
    );

    assert!(player.seek_to(1, 500).is_ok());
    assert_eq!(link.rx_control.try_recv().unwrap(), Message::Seek(1500));

    // Past the end: clamped to the cached length.
    assert!(player.seek_to(60, 999).is_ok());
    assert_eq!(link.rx_control.try_recv().unwrap(), Message::Seek(3000));
}

#[test]
fn get_time_drains_to_latest_and_caches() {
    let mut player = Player::new(1000, 1000);
    let link = player.play();
    assert_eq!(player.get_time(), None);

    let early = TrackTime {
        position_ms: 100,
        length_ms: 9000,
    };
    let late = TrackTime {
        position_ms: 200,
        length_ms: 9000,
    };
    link.tx_time.send(Message::Time(early)).unwrap();
    link.tx_time.send(Message::Time(late)).unwrap();
    assert_eq!(player.get_time(), Some(late));

    // A drain that finds nothing keeps the cache.
    assert_eq!(player.get_time(), Some(late));
}

#[test]
fn has_ended_latches_until_next_play() {
    let mut player = Player::new(1000, 1000);
    assert!(!player.has_ended());

    let link = player.play();
    assert!(!player.has_ended());

    link.tx_end.send(Message::End).unwrap();
    assert!(player.has_ended());
    // Idempotent: repeated calls never toggle it back.
    assert!(player.has_ended());
    assert!(player.has_ended());

    // The next play resets it.
    let _link2 = player.play();
    assert!(!player.has_ended());
}

#[test]
fn end_current_sends_exit() {
    let mut player = Player::new(1000, 1000);
    let link = player.play();
    assert!(player.end_current().is_ok());
    assert_eq!(link.rx_control.try_recv().unwrap(), Message::Exit);
}

#[test]
fn second_play_supersedes_the_first() {
    let mut player = Player::new(700, 1000);
    let first = player.play();
    assert_eq!(first.volume, 700);
    assert!(player.is_playing());

    let second = player.play();
    // The old worker is asked to exit before the channels are replaced.
    assert_eq!(first.rx_control.try_recv().unwrap(), Message::Exit);
    assert!(first.rx_control.try_recv().is_err());
    assert!(player.is_playing());
    assert_eq!(second.volume, 700);

    // Control messages now reach only the new session.
    assert!(player.pause().is_ok());
    assert_eq!(second.rx_control.try_recv().unwrap(), Message::Pause);
    assert!(first.rx_control.try_recv().is_err());
}

#[test]
fn a_dead_worker_turns_sends_into_channel_closed() {
    let mut player = Player::new(1000, 1000);
    let link = player.play();
    // The worker is gone: its end of the control channel is dropped.
    drop(link);
    assert_eq!(player.pause(), Err(n_audio::NError::ChannelClosed));
    // The failed send leaves the owner's state untouched.
    assert!(!player.is_paused());
    assert_eq!(player.set_volume(500), Err(n_audio::NError::ChannelClosed));
    assert_eq!(player.get_volume(), 1000);
    assert_eq!(player.end_current(), Err(n_audio::NError::ChannelClosed));
}

#[test]
fn play_from_path_validates_before_opening() {
    let mut player = Player::new(1000, 1000);
    let err = match player.play_from_path(String::from("/m/notes.txt")) {
        Err(err) => err,
        Ok(_) => panic!("an unsupported extension must be rejected"),
    };
    assert_eq!(err, n_audio::NError::UnsupportedFormat);
    assert!(!player.is_playing());

    let (path, link) = player.play_from_path(String::from("/m/song.mp3")).unwrap();
    assert_eq!(path, "/m/song.mp3");
    assert_eq!(link.volume, 1000);
    assert!(player.is_playing());
}

#[test]
fn play_from_track_hands_out_the_path() {
    let track = n_audio::music_track::MusicTrack::new(String::from("/m/a.flac")).unwrap();
    let mut player = Player::new(600, 1000);
    let (path, link) = player.play_from_track(&track);
    assert_eq!(path, "/m/a.flac");
    assert_eq!(link.volume, 600);
    assert!(player.is_playing());
}

#[test]
fn play_resets_pause_end_and_time() {
    let mut player = Player::new(1000, 1000);
    let link = player.play();
    player.pause().unwrap();
    link.tx_time
        .send(Message::Time(TrackTime {
            position_ms: 5,
            length_ms: 10,
        }))
        .unwrap();
    player.get_time();
    link.tx_end.send(Message::End).unwrap();
    assert!(player.has_ended());

    let _link2 = player.play();
    assert!(!player.is_paused());
    assert!(!player.has_ended());
    assert_eq!(player.get_time(), None);
}

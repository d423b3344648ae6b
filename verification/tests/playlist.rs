use n_audio::queue::{LoopStatus, QueuePlayer};

fn queue_of(names: &[&str]) -> QueuePlayer {
    let mut player = QueuePlayer::new(String::from("music"));
    for name in names {
        player.add(String::from(*name));
    }
    player
}

#[test]
fn new_queue_is_empty_at_sentinel() {
    let player = QueuePlayer::new(String::from("music"));
    assert!(player.is_empty());
    assert_eq!(player.len(), 0);
    assert_eq!(player.index(), usize::MAX - 1);
    assert_eq!(player.path(), "music");
    assert_eq!(player.current_track_name(), None);
}

#[test]
fn add_and_lookup() {
    let mut player = queue_of(&["a.mp3", "b.mp3"]);
    player.add_all(vec![String::from("/somewhere/deep/c.mp3")]);
    assert_eq!(player.len(), 3);
    assert_eq!(player.queue()[2], "c.mp3");
    assert_eq!(
        player.get_path_for_file(1),
        Some(String::from("music/b.mp3"))
    );
    assert_eq!(player.get_path_for_file(3), None);
}

#[test]
fn get_index_from_track_name_matches_stem() {
    let player = queue_of(&["a.mp3", "b.mp3", "b.flac"]);
    assert_eq!(player.get_index_from_track_name("a"), Some(0));
    // The first match wins.
    assert_eq!(player.get_index_from_track_name("b"), Some(1));
    assert_eq!(player.get_index_from_track_name("c"), None);
}

#[test]
fn sentinel_play_index_scenario() {
    // Queue ["a.mp3", "b.mp3"], playlist loop, cursor at the sentinel.
    let mut player = queue_of(&["a.mp3", "b.mp3"]);
    player.set_loop_status(LoopStatus::Playlist);

    let (path, _link) = player.play_index(1).unwrap();
    assert_eq!(path, "music/b.mp3");
    assert_eq!(player.index(), 1);
    assert_eq!(player.current_track_name(), Some(String::from("b.mp3")));

    // An explicit skip past the end wraps to the first track.
    let (path, _link) = player.play_next(true).unwrap();
    assert_eq!(path, "music/a.mp3");
    assert_eq!(player.index(), 0);
}

#[test]
fn playlist_cycle_visits_every_index_once() {
    let mut player = queue_of(&["a.mp3", "b.mp3", "c.mp3"]);
    player.play_index(0).unwrap();

    let mut visited = vec![0];
    for _ in 0..3 {
        player.play_next(false).unwrap();
        visited.push(player.index());
    }
    // One full cycle: 0 -> 1 -> 2 -> wrap -> 0.
    assert_eq!(visited, vec![0, 1, 2, 0]);
}

#[test]
fn file_loop_replays_on_natural_end_but_skips_on_request() {
    let mut player = queue_of(&["a.mp3", "b.mp3"]);
    player.set_loop_status(LoopStatus::File);
    player.play_index(0).unwrap();

    // Natural end of track: the same index plays again.
    player.play_next(false).unwrap();
    assert_eq!(player.index(), 0);
    player.play_next(false).unwrap();
    assert_eq!(player.index(), 0);

    // An explicit skip advances regardless of the loop mode.
    player.play_next(true).unwrap();
    assert_eq!(player.index(), 1);
}

#[test]
fn play_previous_wraps_to_last() {
    let mut player = queue_of(&["a.mp3", "b.mp3", "c.mp3"]);
    player.play_index(0).unwrap();
    let (path, _link) = player.play_previous().unwrap();
    assert_eq!(path, "music/c.mp3");
    assert_eq!(player.index(), 2);
    player.play_previous().unwrap();
    assert_eq!(player.index(), 1);
}

#[test]
fn play_fails_without_a_track() {
    let mut player = QueuePlayer::new(String::from("music"));
    assert!(player.play().is_err());
    player.add(String::from("a.mp3"));
    // The sentinel still points at no track.
    assert!(player.play().is_err());
    assert!(player.play_index(0).is_ok());
}

#[test]
fn remove_and_clear() {
    let mut player = queue_of(&["a.mp3", "b.mp3", "c.mp3"]);
    player.remove(1);
    assert_eq!(player.len(), 2);
    assert_eq!(player.queue()[1], "c.mp3");

    player.clear();
    assert!(player.is_empty());
    assert_eq!(player.index(), usize::MAX - 1);
}

#[test]
fn shuffle_keeps_the_same_tracks() {
    let names = ["a.mp3", "b.mp3", "c.mp3", "d.mp3", "e.mp3", "f.mp3"];
    let mut player = queue_of(&names);
    player.shuffle();
    assert_eq!(player.len(), names.len());
    let mut sorted: Vec<String> = player.queue().clone();
    sorted.sort();
    let mut expected: Vec<String> = names.iter().map(|n| String::from(*n)).collect();
    expected.sort();
    assert_eq!(sorted, expected);
}

#[test]
fn transport_goes_through_the_embedded_player() {
    let mut player = queue_of(&["a.mp3"]);
    let (_path, link) = player.play_index(0).unwrap();
    player.player_mut().pause().unwrap();
    assert!(player.player().is_paused());
    assert_eq!(
        link.rx_control.try_recv().unwrap(),
        n_audio::Message::Pause
    );
}

#[test]
fn set_path_and_shrink() {
    let mut player = queue_of(&["a.mp3"]);
    player.set_path(String::from("elsewhere"));
    player.shrink_to_fit();
    assert_eq!(player.path(), "elsewhere");
    assert_eq!(
        player.get_path_for_file(0),
        Some(String::from("elsewhere/a.mp3"))
    );
}

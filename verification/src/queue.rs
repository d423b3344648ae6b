//! The playlist queue: an ordered list of track file names, a cursor with a
//! sentinel "no track yet" value, a loop mode, and one embedded playback
//! engine that all transport goes through.

use crate::after_last_spec;
use crate::player::Player;
use crate::player::PlayerModel;
use crate::player::WorkerLink;
use crate::remove_ext_spec;
use crate::strip_absolute_path;
use crate::NError;
use rand::seq::SliceRandom;
use vstd::arithmetic::div_mod::lemma_add_mod_noop;
use vstd::arithmetic::div_mod::lemma_mod_add_multiples_vanish;
use vstd::arithmetic::div_mod::lemma_mod_division_less_than_divisor;
use vstd::arithmetic::div_mod::lemma_mod_sub_multiples_vanish;
use vstd::arithmetic::div_mod::lemma_small_mod;
use vstd::prelude::*;

verus! {

/// What `play_next` does at the end of the queue on a natural end of track:
/// advance through the playlist and wrap, or replay the same file.
#[derive(Copy, Clone, Debug, PartialEq, Eq, Structural)]
pub enum LoopStatus {
    /// Advance through all tracks and wrap past the last one.
    Playlist,
    /// Replay the current track indefinitely on natural end.
    File,
}

impl Default for LoopStatus {
    /// Looping over the whole playlist is the default.
    fn default() -> (r: Self)
        ensures
            r == LoopStatus::Playlist,
    {
        LoopStatus::Playlist
    }
}

/// The queue as the contracts speak of it.
pub struct QueueModel {
    /// The queued track file names, in order.
    pub tracks: Seq<Seq<char>>,
    /// The root directory that names are resolved against.
    pub path: Seq<char>,
    /// The cursor; `sentinel_index()` before any track was chosen.
    pub index: int,
    /// The loop mode.
    pub loop_status: LoopStatus,
    /// The embedded playback engine's state.
    pub player: PlayerModel,
}

/// The cursor value that means "no track chosen yet": far past any real
/// index, and distinct from zero.
pub open spec fn sentinel_index() -> int {
    usize::MAX - 1
}

/// Where the cursor lands when the playlist advances: one step forward,
/// wrapping to zero past the end.
pub open spec fn next_in_playlist_spec(index: int, len: int) -> int {
    if index + 1 >= len {
        0
    } else {
        index + 1
    }
}

/// Where `play_next` moves the cursor: it advances through the playlist
/// unless the queue loops a single file and the advance was not an explicit
/// skip.
pub open spec fn next_index_spec(index: int, len: int, loop_status: LoopStatus, ignore_loop: bool) -> int {
    if ignore_loop || loop_status == LoopStatus::Playlist {
        next_in_playlist_spec(index, len)
    } else {
        index
    }
}

/// Where `play_previous` moves the cursor: one step back, wrapping from zero
/// to the last valid index.
pub open spec fn previous_index_spec(index: int, len: int) -> int {
    if index == 0 {
        len - 1
    } else {
        index - 1
    }
}

/// The cursor after `k` natural `play_next` advances from `index` in
/// playlist loop mode.
pub open spec fn advance_k_spec(index: int, len: int, k: nat) -> int
    decreases k,
{
    if k == 0 {
        index
    } else {
        next_index_spec(
            advance_k_spec(index, len, (k - 1) as nat),
            len,
            LoopStatus::Playlist,
            false,
        )
    }
}

/// Repeated playlist advances walk the indices modulo the queue length.
proof fn lemma_advance_is_mod(index: int, len: int, k: nat)
    requires
        0 < len,
        0 <= index < len,
    ensures
        advance_k_spec(index, len, k) == (index + k) % len,
        0 <= advance_k_spec(index, len, k) < len,
    decreases k,
{
    lemma_mod_division_less_than_divisor(index + k, len);
    if k == 0 {
        lemma_small_mod(index as nat, len as nat);
    } else {
        lemma_advance_is_mod(index, len, (k - 1) as nat);
        let prev = advance_k_spec(index, len, (k - 1) as nat);
        if len == 1 {
            // Everything is congruent to zero modulo one.
            assert(advance_k_spec(index, len, k) == 0);
        } else if prev + 1 >= len {
            // prev == len - 1, so the advance wraps to 0, and
            // (index + k) == (index + k - 1) + 1 is a multiple of len more
            // than 0.
            assert(advance_k_spec(index, len, k) == 0);
            lemma_add_mod_noop(index + k - 1, 1, len);
            lemma_small_mod(1, len as nat);
            lemma_mod_sub_multiples_vanish(prev + 1, len);
            lemma_small_mod(0, len as nat);
        } else {
            lemma_add_mod_noop(index + k - 1, 1, len);
            lemma_small_mod(1, len as nat);
            lemma_small_mod((prev + 1) as nat, len as nat);
        }
    }
}

/// In playlist loop mode, `len` successive `play_next` advances from any
/// starting index land back on that index: one full cycle over the queue.
pub proof fn lemma_play_next_cycle_wraps(index: int, len: int)
    requires
        0 < len,
        0 <= index < len,
    ensures
        advance_k_spec(index, len, len as nat) == index,
{
    lemma_advance_is_mod(index, len, len as nat);
    lemma_mod_add_multiples_vanish(index, len);
    lemma_small_mod(index as nat, len as nat);
}

/// In playlist loop mode, the first `len` stops of a cycle are pairwise
/// distinct: together with the wrap-around this says a full cycle visits
/// every index exactly once.
pub proof fn lemma_play_next_cycle_distinct(index: int, len: int, a: nat, b: nat)
    requires
        0 < len,
        0 <= index < len,
        a < b < len,
    ensures
        advance_k_spec(index, len, a) != advance_k_spec(index, len, b),
{
    lemma_advance_is_mod(index, len, a);
    lemma_advance_is_mod(index, len, b);
    let r = (index + a) % len;
    lemma_mod_division_less_than_divisor(index + a, len);
    // (index + b) % len == (r + (b - a)) % len, and the step b - a is too
    // small to bring that remainder back around to r.
    lemma_add_mod_noop(index + a, b - a, len);
    lemma_small_mod((b - a) as nat, len as nat);
    if r + (b - a) < len {
        lemma_small_mod((r + (b - a)) as nat, len as nat);
    } else {
        lemma_mod_sub_multiples_vanish(r + (b - a), len);
        lemma_small_mod((r + (b - a) - len) as nat, len as nat);
    }
}

/// A single-file loop replays the same index on a natural end of track, and
/// an explicit skip advances exactly as the playlist mode would.
pub proof fn lemma_file_loop_replays(index: int, len: int)
    ensures
        next_index_spec(index, len, LoopStatus::File, false) == index,
        next_index_spec(index, len, LoopStatus::File, true) == next_index_spec(
            index,
            len,
            LoopStatus::Playlist,
            true,
        ),
{
}

/// The last path segment of every given path, in order: what `add_all`
/// appends to the queue.
pub open spec fn stripped_names_spec(paths: Seq<String>) -> Seq<Seq<char>> {
    paths.map_values(|p: String| after_last_spec(p@, '/'))
}

/// The character sequences of a list of track names: how the queue's
/// contents appear in its model.
pub open spec fn track_views_spec(tracks: Seq<String>) -> Seq<Seq<char>> {
    tracks.map_values(|s: String| s@)
}

/// Appending a track name appends its character sequence to the model.
proof fn lemma_track_views_push(tracks: Seq<String>, t: String)
    ensures
        track_views_spec(tracks.push(t)) == track_views_spec(tracks).push(t@),
{
    assert(track_views_spec(tracks.push(t)) =~= track_views_spec(tracks).push(t@));
}

/// Relies on rand's `SliceRandom::shuffle` (a Fisher-Yates swap pass): the
/// slice afterwards is a permutation of the slice before, whatever the drawn
/// randomness.
#[verifier::external_body]
fn shuffle_tracks(tracks: &mut Vec<String>)
    ensures
        final(tracks)@.len() == old(tracks)@.len(),
        final(tracks)@.to_multiset() == old(tracks)@.to_multiset(),
        final(tracks)@.map_values(|s: String| s@).to_multiset() == old(tracks)@.map_values(
            |s: String| s@,
        ).to_multiset(),
{
    tracks.shuffle(&mut rand::thread_rng());
}

/// Relies on `Vec::shrink_to_fit`: it only drops spare capacity and keeps
/// the contents.
#[verifier::external_body]
fn shrink_vec(tracks: &mut Vec<String>)
    ensures
        final(tracks)@ == old(tracks)@,
{
    tracks.shrink_to_fit();
}

/// Relies on `String::shrink_to_fit`: it only drops spare capacity and keeps
/// the characters.
#[verifier::external_body]
fn shrink_string(s: &mut String)
    ensures
        final(s)@ == old(s)@,
{
    s.shrink_to_fit();
}

/// An ordered playlist with a cursor, a loop mode and an embedded playback
/// engine. Transport methods move the cursor and hand back the resolved path
/// of the track to open, together with the worker half of the fresh session.
pub struct QueuePlayer {
    queue: Vec<String>,
    path: String,
    player: Player,
    index: usize,
    loop_status: LoopStatus,
}

impl View for QueuePlayer {
    type V = QueueModel;

    closed spec fn view(&self) -> QueueModel {
        QueueModel {
            tracks: track_views_spec(self.queue@),
            path: self.path@,
            index: self.index as int,
            loop_status: self.loop_status,
            player: self.player@,
        }
    }
}

impl QueuePlayer {
    /// An empty queue over `path`, cursor at the sentinel, playlist loop
    /// mode, with a fresh engine at full volume and natural speed.
    pub fn new(path: String) -> (r: QueuePlayer)
        ensures
            r@ == (QueueModel {
                tracks: Seq::empty(),
                path: path@,
                index: sentinel_index(),
                loop_status: LoopStatus::Playlist,
                player: PlayerModel {
                    paused: false,
                    volume: 1000,
                    speed: 1000,
                    cached: None,
                    active: false,
                    ended: false,
                },
            }),
    {
        let player = Player::new(1000, 1000);
        let r = QueuePlayer {
            queue: Vec::new(),
            player,
            index: usize::MAX - 1,
            path,
            loop_status: LoopStatus::Playlist,
        };
        proof {
            assert(r@.tracks =~= Seq::<Seq<char>>::empty());
        }
        r
    }

    /// The current cursor value.
    pub fn index(&self) -> (r: usize)
        ensures
            r == self@.index,
    {
        self.index
    }

    /// How many tracks are queued.
    pub fn len(&self) -> (r: usize)
        ensures
            r == self@.tracks.len(),
    {
        self.queue.len()
    }

    /// Whether no track is queued.
    pub fn is_empty(&self) -> (r: bool)
        ensures
            r == (self@.tracks.len() == 0),
    {
        self.queue.is_empty()
    }

    /// The root directory that track names are resolved against.
    pub fn path(&self) -> (r: String)
        ensures
            r@ == self@.path,
    {
        self.path.clone()
    }

    /// Replaces the root directory.
    pub fn set_path(&mut self, path: String)
        ensures
            final(self)@ == (QueueModel { path: path@, ..old(self)@ }),
    {
        self.path = path;
    }

    /// Replaces the loop mode.
    pub fn set_loop_status(&mut self, loop_status: LoopStatus)
        ensures
            final(self)@ == (QueueModel { loop_status: loop_status, ..old(self)@ }),
    {
        self.loop_status = loop_status;
    }

    /// The absolute path of track `i`: the root directory, a separator and
    /// the track's file name. Nothing for an out-of-range index.
    pub fn get_path_for_file(&self, i: usize) -> (r: Option<String>)
        ensures
            i < self@.tracks.len() ==> (r matches Some(p) && p@ == self@.path + seq!['/']
                + self@.tracks[i as int]),
            i >= self@.tracks.len() ==> r is None,
    {
        if i < self.queue.len() {
            let joined = self.path.clone().concat("/").concat(self.queue[i].as_str());
            proof {
                reveal_strlit("/");
                assert(joined@ =~= self@.path + seq!['/'] + self@.tracks[i as int]);
            }
            Some(joined)
        } else {
            None
        }
    }

    /// Read-only access to the queued track names.
    pub fn queue(&self) -> (r: &Vec<String>)
        ensures
            r@.map_values(|s: String| s@) == self@.tracks,
    {
        &self.queue
    }

    /// Drops spare capacity of the queue and the root path.
    pub fn shrink_to_fit(&mut self)
        ensures
            final(self)@ == old(self)@,
    {
        shrink_string(&mut self.path);
        shrink_vec(&mut self.queue);
        proof {
            assert(final(self)@ =~= old(self)@);
        }
    }

    /// Appends one track name as given.
    pub fn add(&mut self, track: String)
        ensures
            final(self)@ == (QueueModel {
                tracks: old(self)@.tracks.push(track@),
                ..old(self)@
            }),
    {
        self.queue.push(track);
        proof {
            assert(final(self)@.tracks =~= old(self)@.tracks.push(track@));
        }
    }

    /// Appends every given path, keeping only its last segment, in order.
    pub fn add_all(&mut self, paths: Vec<String>)
        ensures
            final(self)@ == (QueueModel {
                tracks: old(self)@.tracks + stripped_names_spec(paths@),
                ..old(self)@
            }),
    {
        let ghost all = stripped_names_spec(paths@);
        proof {
            assert(old(self)@.tracks + all.take(0) =~= old(self)@.tracks);
        }
        let mut i: usize = 0;
        while i < paths.len()
            invariant
                i <= paths@.len(),
                all == stripped_names_spec(paths@),
                all.len() == paths@.len(),
                self@.tracks == old(self)@.tracks + all.take(i as int),
                self@.path == old(self)@.path,
                self@.index == old(self)@.index,
                self@.loop_status == old(self)@.loop_status,
                self@.player == old(self)@.player,
            decreases paths@.len() - i,
        {
            let stripped = strip_absolute_path(paths[i].clone());
            let ghost prev_q = self.queue@;
            let ghost st = stripped;
            self.queue.push(stripped);
            proof {
                lemma_track_views_push(prev_q, st);
                assert(all[i as int] == after_last_spec(paths@[i as int]@, '/'));
                assert(self@.tracks =~= old(self)@.tracks + all.take(i as int + 1));
            }
            i = i + 1;
        }
        proof {
            assert(all.take(paths@.len() as int) =~= all);
        }
    }

    /// Removes the track at `index`, shifting the later ones forward.
    pub fn remove(&mut self, index: usize)
        requires
            index < old(self)@.tracks.len(),
        ensures
            final(self)@ == (QueueModel {
                tracks: old(self)@.tracks.remove(index as int),
                ..old(self)@
            }),
    {
        self.queue.remove(index);
        proof {
            assert(final(self)@.tracks =~= old(self)@.tracks.remove(index as int));
        }
    }

    /// Empties the queue and puts the cursor back at the sentinel.
    pub fn clear(&mut self)
        ensures
            final(self)@ == (QueueModel {
                tracks: Seq::empty(),
                index: sentinel_index(),
                ..old(self)@
            }),
    {
        self.queue.clear();
        self.index = usize::MAX - 1;
        proof {
            assert(final(self)@.tracks =~= Seq::<Seq<char>>::empty());
        }
    }

    /// Reorders the queue at random: afterwards it holds the same tracks,
    /// as a permutation of the old order.
    pub fn shuffle(&mut self)
        ensures
            final(self)@.tracks.len() == old(self)@.tracks.len(),
            final(self)@.tracks.to_multiset() == old(self)@.tracks.to_multiset(),
            final(self)@ == (QueueModel { tracks: final(self)@.tracks, ..old(self)@ }),
    {
        shuffle_tracks(&mut self.queue);
    }

    /// The file name under the cursor, or nothing when the cursor does not
    /// point at a track (sentinel, or past the end).
    pub fn current_track_name(&self) -> (r: Option<String>)
        ensures
            self@.index < self@.tracks.len() ==> (r matches Some(name) && name@
                == self@.tracks[self@.index]),
            self@.index >= self@.tracks.len() ==> r is None,
    {
        if self.index < self.queue.len() {
            Some(self.queue[self.index].clone())
        } else {
            None
        }
    }

    /// Starts playing the track under the cursor: supersedes any previous
    /// session and hands back the resolved path together with the worker
    /// half of the new session. Fails exactly when the cursor points at no
    /// track, leaving everything unchanged.
    pub fn play(&mut self) -> (r: Result<(String, WorkerLink), NError>)
        ensures
            old(self)@.index < old(self)@.tracks.len() <==> r is Ok,
            r matches Ok(pair) ==> pair.0@ == old(self)@.path + seq!['/'] + old(
                self,
            )@.tracks[old(self)@.index] && pair.1.volume == old(self)@.player.volume
                && pair.1.playback_speed == old(self)@.player.speed,
            r is Ok ==> final(self)@ == (QueueModel {
                player: PlayerModel {
                    paused: false,
                    volume: old(self)@.player.volume,
                    speed: old(self)@.player.speed,
                    cached: None,
                    active: true,
                    ended: false,
                },
                ..old(self)@
            }),
            r matches Err(e) ==> e == NError::NoTrack && final(self)@ == old(self)@,
    {
        match self.get_path_for_file(self.index) {
            Some(track_path) => {
                let link = self.player.play();
                Ok((track_path, link))
            },
            None => Err(NError::NoTrack),
        }
    }

    /// Moves the cursor to `index` and plays that track.
    pub fn play_index(&mut self, index: usize) -> (r: Result<(String, WorkerLink), NError>)
        ensures
            index < old(self)@.tracks.len() <==> r is Ok,
            r matches Ok(pair) ==> pair.0@ == old(self)@.path + seq!['/'] + old(
                self,
            )@.tracks[index as int],
            r is Ok ==> final(self)@ == (QueueModel {
                index: index as int,
                player: PlayerModel {
                    paused: false,
                    volume: old(self)@.player.volume,
                    speed: old(self)@.player.speed,
                    cached: None,
                    active: true,
                    ended: false,
                },
                ..old(self)@
            }),
            r matches Err(e) ==> e == NError::NoTrack && final(self)@ == (QueueModel {
                index: index as int,
                ..old(self)@
            }),
    {
        self.index = index;
        self.play()
    }

    /// Advances the cursor as the loop mode and the kind of advance demand —
    /// `ignore_loop` marks an explicit skip, which advances even in
    /// single-file loop mode — and plays the track it lands on.
    pub fn play_next(&mut self, ignore_loop: bool) -> (r: Result<(String, WorkerLink), NError>)
        ensures
            final(self)@.index == next_index_spec(
                old(self)@.index,
                old(self)@.tracks.len() as int,
                old(self)@.loop_status,
                ignore_loop,
            ),
            final(self)@.index < old(self)@.tracks.len() <==> r is Ok,
            r matches Ok(pair) ==> pair.0@ == old(self)@.path + seq!['/'] + old(
                self,
            )@.tracks[final(self)@.index],
            r is Ok ==> final(self)@ == (QueueModel {
                index: final(self)@.index,
                player: PlayerModel {
                    paused: false,
                    volume: old(self)@.player.volume,
                    speed: old(self)@.player.speed,
                    cached: None,
                    active: true,
                    ended: false,
                },
                ..old(self)@
            }),
            r matches Err(e) ==> e == NError::NoTrack && final(self)@ == (QueueModel {
                index: final(self)@.index,
                ..old(self)@
            }),
    {
        if ignore_loop || self.loop_status == LoopStatus::Playlist {
            let len: usize = self.queue.len();
            if self.index >= len {
                self.index = 0;
            } else if self.index + 1 >= len {
                self.index = 0;
            } else {
                self.index = self.index + 1;
            }
        }
        self.play()
    }

    /// Steps the cursor back, wrapping from zero to the last valid index,
    /// and plays the track it lands on. An empty queue with the cursor at
    /// zero is excluded: there is no index to wrap to.
    pub fn play_previous(&mut self) -> (r: Result<(String, WorkerLink), NError>)
        requires
            !(old(self)@.tracks.len() == 0 && old(self)@.index == 0),
        ensures
            final(self)@.index == previous_index_spec(
                old(self)@.index,
                old(self)@.tracks.len() as int,
            ),
            final(self)@.index < old(self)@.tracks.len() <==> r is Ok,
            r matches Ok(pair) ==> pair.0@ == old(self)@.path + seq!['/'] + old(
                self,
            )@.tracks[final(self)@.index],
            r is Ok ==> final(self)@ == (QueueModel {
                index: final(self)@.index,
                player: PlayerModel {
                    paused: false,
                    volume: old(self)@.player.volume,
                    speed: old(self)@.player.speed,
                    cached: None,
                    active: true,
                    ended: false,
                },
                ..old(self)@
            }),
            r matches Err(e) ==> e == NError::NoTrack && final(self)@ == (QueueModel {
                index: final(self)@.index,
                ..old(self)@
            }),
    {
        if self.index == 0 {
            self.index = self.queue.len();
        }
        self.index = self.index - 1;
        self.play()
    }

    /// The first queue position whose file name, extension removed, equals
    /// `name`; nothing when no track matches.
    pub fn get_index_from_track_name(&self, name: &str) -> (r: Option<usize>)
        ensures
            r matches Some(i) ==> i < self@.tracks.len() && remove_ext_spec(
                self@.tracks[i as int],
            ) == name@ && (forall|j: int|
                0 <= j < i ==> remove_ext_spec(self@.tracks[j]) != name@),
            r is None ==> forall|j: int|
                0 <= j < self@.tracks.len() ==> remove_ext_spec(self@.tracks[j]) != name@,
    {
        let wanted = String::from_str(name);
        let mut i: usize = 0;
        while i < self.queue.len()
            invariant
                i <= self@.tracks.len(),
                wanted@ == name@,
                forall|j: int| 0 <= j < i ==> remove_ext_spec(self@.tracks[j]) != name@,
            decreases self@.tracks.len() - i,
        {
            let stem = crate::stem_of(self.queue[i].as_str());
            if stem == wanted {
                return Some(i);
            }
            i = i + 1;
        }
        None
    }

    /// Read-only access to the embedded playback engine.
    pub fn player(&self) -> (r: &Player)
        ensures
            r@ == self@.player,
    {
        &self.player
    }

    /// Mutable access to the embedded playback engine, for transport calls
    /// that do not move the cursor.
    pub fn player_mut(&mut self) -> (r: &mut Player)
        ensures
            (*r)@ == old(self)@.player,
            final(self)@ == (QueueModel { player: (*final(r))@, ..old(self)@ }),
    {
        &mut self.player
    }
}

impl Default for QueuePlayer {
    /// An empty queue over an empty root directory.
    fn default() -> (r: Self)
        ensures
            r@ == (QueueModel {
                tracks: Seq::empty(),
                path: Seq::empty(),
                index: sentinel_index(),
                loop_status: LoopStatus::Playlist,
                player: PlayerModel {
                    paused: false,
                    volume: 1000,
                    speed: 1000,
                    cached: None,
                    active: false,
                    ended: false,
                },
            }),
    {
        let r = QueuePlayer::new(String::new());
        r
    }
}

} // verus!

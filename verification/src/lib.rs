//! Local-file audio playback engine: track handles, a playback engine with a
//! thread-boundary message protocol, and a playlist queue layered on top.
//!
//! Times are carried as whole milliseconds, and volumes and playback speeds as
//! per-mille values, so every transport computation is exact integer
//! arithmetic.

use vstd::prelude::*;

pub mod channel;
pub mod localization;
pub mod player;
pub mod probe;
pub mod music_track;
pub mod output;
pub mod queue;
pub mod settings;
pub mod worker;

verus! {

/// Errors surfaced by the engine to its owner thread.
#[derive(Copy, Clone, Debug, PartialEq, Eq, Structural)]
pub enum NError {
    /// The queue cursor does not point at a track.
    NoTrack,
    /// The file extension names no registered container or codec.
    UnsupportedFormat,
    /// A control message could not be delivered: no worker is listening.
    ChannelClosed,
}

/// A playback timestamp: how far playback has come and how long the track is,
/// both in milliseconds.
#[derive(Copy, Clone, Debug, PartialEq, Eq, Structural)]
pub struct TrackTime {
    /// Current position inside the track, in milliseconds.
    pub position_ms: u64,
    /// Total length of the track, in milliseconds.
    pub length_ms: u64,
}

/// Messages exchanged between the engine's owner thread and its worker thread.
///
/// `Play`, `Pause`, `Volume`, `PlaybackSpeed`, `Seek` and `Exit` travel on the
/// control channel towards the worker; `Time` travels on the time channel and
/// `End` on the end channel back to the owner.
#[derive(Copy, Clone, Debug, PartialEq, Eq, Structural)]
pub enum Message {
    /// Resume playback.
    Play,
    /// Suspend playback.
    Pause,
    /// The worker reached the natural end of the track.
    End,
    /// Ask the worker to stop without reporting an end.
    Exit,
    /// Ask the worker to seek to this position, in milliseconds.
    Seek(u64),
    /// A fresh position/length snapshot from the worker.
    Time(TrackTime),
    /// Change the output volume, in per-mille of full scale.
    Volume(u32),
    /// Change the playback speed, in per-mille of natural speed.
    PlaybackSpeed(u32),
}

/// Index of the last occurrence of `c` in `s`, or `-1` when `c` does not
/// occur.
pub open spec fn last_index_of_spec(s: Seq<char>, c: char) -> int
    decreases s.len(),
{
    if s.len() == 0 {
        -1
    } else if s[s.len() - 1] == c {
        s.len() - 1
    } else {
        last_index_of_spec(s.drop_last(), c)
    }
}

/// `last_index_of_spec` names the last occurrence: in range, hitting `c`,
/// with nothing but other characters after it.
pub proof fn lemma_last_index_of_spec(s: Seq<char>, c: char)
    ensures
        -1 <= last_index_of_spec(s, c) < s.len(),
        last_index_of_spec(s, c) >= 0 ==> s[last_index_of_spec(s, c)] == c,
        forall|j: int| last_index_of_spec(s, c) < j < s.len() ==> s[j] != c,
    decreases s.len(),
{
    if s.len() > 0 && s[s.len() - 1] != c {
        lemma_last_index_of_spec(s.drop_last(), c);
        assert(forall|j: int| 0 <= j < s.len() - 1 ==> s[j] == s.drop_last()[j]);
    }
}

/// The suffix of `s` after the last occurrence of `c` (all of `s` when `c`
/// does not occur).
pub open spec fn after_last_spec(s: Seq<char>, c: char) -> Seq<char> {
    s.subrange(last_index_of_spec(s, c) + 1, s.len() as int)
}

/// What `remove_ext` returns: the file name (the part of the path after the
/// last separator) cut before its last `.`, or empty when the name has no `.`.
pub open spec fn remove_ext_spec(path: Seq<char>) -> Seq<char> {
    let name = after_last_spec(path, '/');
    let dot = last_index_of_spec(name, '.');
    if dot >= 0 {
        name.subrange(0, dot)
    } else {
        Seq::empty()
    }
}

/// Index of the last occurrence of `c` in `s`, scanning from the end.
pub(crate) fn last_index_of(s: &str, c: char) -> (r: Option<usize>)
    ensures
        r matches Some(i) ==> i == last_index_of_spec(s@, c) && i < s@.len(),
        r is None ==> last_index_of_spec(s@, c) == -1,
{
    proof {
        lemma_last_index_of_spec(s@, c);
    }
    let mut i: usize = s.unicode_len();
    while i > 0
        invariant
            i <= s@.len(),
            forall|j: int| i <= j < s@.len() ==> s@[j] != c,
            -1 <= last_index_of_spec(s@, c) < s@.len(),
            last_index_of_spec(s@, c) >= 0 ==> s@[last_index_of_spec(s@, c)] == c,
            forall|j: int| last_index_of_spec(s@, c) < j < s@.len() ==> s@[j] != c,
        decreases i,
    {
        i = i - 1;
        if s.get_char(i) == c {
            return Some(i);
        }
    }
    None
}

/// The file name of `path` with its extension removed, on any input: the
/// total core that both `remove_ext` and the queue's name lookup share.
pub fn stem_of(path: &str) -> (r: String)
    ensures
        r@ == remove_ext_spec(path@),
{
    let name = match last_index_of(path, '/') {
        Some(i) => {
            proof {
                lemma_last_index_of_spec(path@, '/');
            }
            let n: usize = path.unicode_len();
            path.substring_char(i + 1, n)
        },
        None => {
            proof {
                assert(path@.subrange(0, path@.len() as int) =~= path@);
            }
            path
        },
    };
    proof {
        assert(name@ =~= after_last_spec(path@, '/'));
    }
    match last_index_of(name, '.') {
        Some(dot) => {
            let stem = name.substring_char(0, dot);
            proof {
                lemma_last_index_of_spec(name@, '.');
            }
            stem.to_owned()
        },
        None => {
            let empty = String::new();
            proof {
                assert(empty@ =~= remove_ext_spec(path@));
            }
            empty
        },
    }
}

/// Returns the file name without its extension: everything between the last
/// path separator and the last `.`, empty when the file name holds no `.`.
/// A path with no file name (empty, or ending in a separator) is excluded.
pub fn remove_ext(path: &str) -> (r: String)
    requires
        path@.len() > 0,
        path@[path@.len() - 1] != '/',
    ensures
        r@ == remove_ext_spec(path@),
{
    stem_of(path)
}

/// Returns the last path segment: everything after the last separator.
pub fn strip_absolute_path(path: String) -> (r: String)
    ensures
        r@ == after_last_spec(path@, '/'),
{
    let s = path.as_str();
    match last_index_of(s, '/') {
        Some(i) => {
            proof {
                lemma_last_index_of_spec(s@, '/');
            }
            let n: usize = s.unicode_len();
            let part = s.substring_char(i + 1, n);
            part.to_owned()
        },
        None => {
            proof {
                assert(s@.subrange(0, s@.len() as int) =~= s@);
            }
            path
        },
    }
}

/// The decimal digit `d` as a character; `d` must lie below ten.
pub open spec fn digit_char(d: int) -> char {
    if d == 0 {
        '0'
    } else if d == 1 {
        '1'
    } else if d == 2 {
        '2'
    } else if d == 3 {
        '3'
    } else if d == 4 {
        '4'
    } else if d == 5 {
        '5'
    } else if d == 6 {
        '6'
    } else if d == 7 {
        '7'
    } else if d == 8 {
        '8'
    } else {
        '9'
    }
}

/// The decimal digits of `n`, most significant first.
pub open spec fn decimal_spec(n: nat) -> Seq<char>
    decreases n,
{
    if n < 10 {
        seq![digit_char(n as int)]
    } else {
        decimal_spec(n / 10) + seq![digit_char((n % 10) as int)]
    }
}

/// The decimal digits of `n`, zero-padded on the left to at least two digits.
pub open spec fn two_digit_spec(n: nat) -> Seq<char> {
    if n < 10 {
        seq!['0'] + decimal_spec(n)
    } else {
        decimal_spec(n)
    }
}

/// A `minutes:seconds` clock rendering, both fields at least two digits wide.
pub open spec fn min_sec_spec(mins: nat, secs: nat) -> Seq<char> {
    two_digit_spec(mins) + seq![':'] + two_digit_spec(secs)
}

/// Relies on std's `format!` with the `{:02}` specifier: the decimal digits of
/// each operand, zero-padded on the left to a width of at least two.
#[verifier::external_body]
fn format_min_sec(mins: u64, secs: u64) -> (r: String)
    ensures
        r@ == min_sec_spec(mins as nat, secs as nat),
{
    format!("{:02}:{:02}", mins, secs)
}

impl TrackTime {
    /// The current position as a `minutes:seconds` clock string.
    pub fn format_pos(&self) -> (r: String)
        ensures
            r@ == min_sec_spec(
                (self.position_ms / 60000) as nat,
                ((self.position_ms / 1000) % 60) as nat,
            ),
    {
        format_min_sec(self.position_ms / 60000, (self.position_ms / 1000) % 60)
    }

    /// The track length as a `minutes:seconds` clock string.
    pub fn format_len(&self) -> (r: String)
        ensures
            r@ == min_sec_spec(
                (self.length_ms / 60000) as nat,
                ((self.length_ms / 1000) % 60) as nat,
            ),
    {
        format_min_sec(self.length_ms / 60000, (self.length_ms / 1000) % 60)
    }
}

impl Default for TrackTime {
    /// The zero timestamp: position and length both at zero milliseconds.
    fn default() -> (r: Self)
        ensures
            r.position_ms == 0,
            r.length_ms == 0,
    {
        TrackTime { position_ms: 0, length_ms: 0 }
    }
}

/// Title, artist and length of one track, read once at query time.
#[derive(Clone, Debug)]
pub struct Metadata {
    /// Zero position plus the track length.
    pub time: TrackTime,
    /// The artist tag, empty when the container carries none.
    pub artist: String,
    /// The title tag, with the file name (without extension) as fallback.
    pub title: String,
}

} // verus!

//! The playback engine's owner-side half: one instance owns at most one live
//! worker session and talks to it over three one-directional channels
//! (control in, time out, end out).
//!
//! The worker half performs the decoding and device output; this module keeps
//! the owner's view of the session — paused flag, volume, speed, the cached
//! time snapshot and the end flag — and every method states exactly how it
//! moves that view.

use crate::channel::message_channel;
use crate::channel::queued_messages;
use crate::channel::send_message;
use crate::channel::try_recv_message;
use crate::Message;
use crate::NError;
use crate::TrackTime;
use vstd::prelude::*;

verus! {

/// The owner's view of a playback engine: what every contract speaks of.
pub struct PlayerModel {
    /// Whether the owner has asked the worker to hold playback.
    pub paused: bool,
    /// Output volume in per-mille of full scale.
    pub volume: u32,
    /// Playback speed in per-mille of natural speed.
    pub speed: u32,
    /// The last time snapshot drained from the time channel.
    pub cached: Option<TrackTime>,
    /// Whether a worker session is attached.
    pub active: bool,
    /// Whether the attached worker has reported its natural end.
    pub ended: bool,
}

/// The owner-held ends of one worker session's three channels.
struct Session {
    tx: flume::Sender<Message>,
    rx_t: flume::Receiver<Message>,
    rx_e: flume::Receiver<Message>,
}

/// The worker-held ends of a session's channels, plus the settings the worker
/// starts from. `Player::play` hands this to whoever runs the decode loop.
pub struct WorkerLink {
    /// Control messages from the owner arrive here.
    pub rx_control: flume::Receiver<Message>,
    /// Time snapshots travel back to the owner through here.
    pub tx_time: flume::Sender<Message>,
    /// The single `End` report travels back through here.
    pub tx_end: flume::Sender<Message>,
    /// Volume the session starts at, in per-mille.
    pub volume: u32,
    /// Playback speed the session starts at, in per-mille.
    pub playback_speed: u32,
}

/// What a successful `set_volume` does to the owner's state: the volume is
/// replaced, everything else stays.
pub open spec fn set_volume_spec(m: PlayerModel, volume: u32) -> PlayerModel {
    PlayerModel { volume: volume, ..m }
}

/// Round trip: after `set_volume(v)` succeeds, `get_volume` reads `v` back
/// from the owner's cache — before any message from the worker arrives, and
/// whatever the rest of the state is.
pub proof fn lemma_volume_round_trip(m: PlayerModel, volume: u32)
    ensures
        set_volume_spec(m, volume).volume == volume,
{
}

/// Clamping of a seek target to the known track length.
pub open spec fn clamp_seek_spec(target_ms: int, length_ms: int) -> int {
    if target_ms <= length_ms {
        target_ms
    } else {
        length_ms
    }
}

/// Clamps the `(seconds, fraction)` seek target to the track length: the
/// target itself when it lies inside the track, the length otherwise. The
/// result never exceeds `length_ms`.
pub fn clamp_seek_target(secs: u64, frac_ms: u32, length_ms: u64) -> (r: u64)
    requires
        frac_ms < 1000,
    ensures
        r == clamp_seek_spec(secs * 1000 + frac_ms, length_ms as int),
        r <= length_ms,
        secs * 1000 + frac_ms <= length_ms ==> r == secs * 1000 + frac_ms,
{
    let target: u128 = secs as u128 * 1000 + frac_ms as u128;
    if target <= length_ms as u128 {
        target as u64
    } else {
        length_ms
    }
}

/// The playback engine as seen from its owner thread.
///
/// At most one worker session is attached at a time; `play` supersedes the
/// previous session by asking its worker to exit before replacing the
/// channels.
pub struct Player {
    is_paused: bool,
    volume: u32,
    playback_speed: u32,
    cached_get_time: Option<TrackTime>,
    ended: bool,
    session: Option<Session>,
}

impl View for Player {
    type V = PlayerModel;

    closed spec fn view(&self) -> PlayerModel {
        PlayerModel {
            paused: self.is_paused,
            volume: self.volume,
            speed: self.playback_speed,
            cached: self.cached_get_time,
            active: self.session is Some,
            ended: self.ended,
        }
    }
}

impl Player {
    /// A fresh engine with no session attached.
    pub fn new(volume: u32, playback_speed: u32) -> (r: Player)
        ensures
            r@ == (PlayerModel {
                paused: false,
                volume: volume,
                speed: playback_speed,
                cached: None,
                active: false,
                ended: false,
            }),
    {
        Player {
            is_paused: false,
            volume,
            playback_speed,
            cached_get_time: None,
            ended: false,
            session: None,
        }
    }

    /// Asks the worker to hold playback and records the paused state.
    /// Without a session nothing is sent and nothing changes.
    pub fn pause(&mut self) -> (r: Result<(), NError>)
        ensures
            !old(self)@.active ==> r is Ok && final(self)@ == old(self)@,
            r is Ok && old(self)@.active ==> final(self)@ == (PlayerModel {
                paused: true,
                ..old(self)@
            }),
            r matches Err(e) ==> e == NError::ChannelClosed && final(self)@ == old(self)@,
    {
        if let Some(session) = &self.session {
            send_message(&session.tx, Message::Pause)?;
            self.is_paused = true;
        }
        Ok(())
    }

    /// Asks the worker to resume playback and clears the paused state.
    /// Without a session nothing is sent and nothing changes.
    pub fn unpause(&mut self) -> (r: Result<(), NError>)
        ensures
            !old(self)@.active ==> r is Ok && final(self)@ == old(self)@,
            r is Ok && old(self)@.active ==> final(self)@ == (PlayerModel {
                paused: false,
                ..old(self)@
            }),
            r matches Err(e) ==> e == NError::ChannelClosed && final(self)@ == old(self)@,
    {
        if let Some(session) = &self.session {
            send_message(&session.tx, Message::Play)?;
            self.is_paused = false;
        }
        Ok(())
    }

    /// Whether the current track is paused; always false without a session.
    pub fn is_paused(&self) -> (r: bool)
        ensures
            r == (self@.active && self@.paused),
    {
        if self.session.is_some() {
            self.is_paused
        } else {
            false
        }
    }

    /// The owner-cached volume, in per-mille of full scale.
    pub fn get_volume(&self) -> (r: u32)
        ensures
            r == self@.volume,
    {
        self.volume
    }

    /// Sets the output volume: tells the worker, if one is attached, and
    /// caches the value locally so `get_volume` reflects it at once.
    pub fn set_volume(&mut self, volume: u32) -> (r: Result<(), NError>)
        requires
            volume <= 1000,
        ensures
            !old(self)@.active ==> r is Ok,
            r is Ok ==> final(self)@ == set_volume_spec(old(self)@, volume),
            r matches Err(e) ==> e == NError::ChannelClosed && final(self)@ == old(self)@,
    {
        if let Some(session) = &self.session {
            send_message(&session.tx, Message::Volume(volume))?;
        }
        self.volume = volume;
        Ok(())
    }

    /// Sets the playback speed, in per-mille of natural speed. The value is
    /// only recorded when a worker accepted it, mirroring that speed takes
    /// effect per session.
    pub fn set_playback_speed(&mut self, playback_speed: u32) -> (r: Result<(), NError>)
        ensures
            !old(self)@.active ==> r is Ok && final(self)@ == old(self)@,
            r is Ok && old(self)@.active ==> final(self)@ == (PlayerModel {
                speed: playback_speed,
                ..old(self)@
            }),
            r matches Err(e) ==> e == NError::ChannelClosed && final(self)@ == old(self)@,
    {
        if let Some(session) = &self.session {
            send_message(&session.tx, Message::PlaybackSpeed(playback_speed))?;
            self.playback_speed = playback_speed;
        }
        Ok(())
    }

    /// Asks the worker to seek to `secs` seconds plus `frac_ms` milliseconds,
    /// clamped to the last known track length. Without a session, or before
    /// any time snapshot arrived, nothing is sent: there is no safe upper
    /// bound to clamp against yet.
    pub fn seek_to(&self, secs: u64, frac_ms: u32) -> (r: Result<(), NError>)
        requires
            frac_ms < 1000,
        ensures
            !(self@.active && self@.cached is Some) ==> r is Ok,
            r matches Err(e) ==> e == NError::ChannelClosed,
    {
        if let Some(session) = &self.session {
            if let Some(current_duration) = &self.cached_get_time {
                let target = clamp_seek_target(secs, frac_ms, current_duration.length_ms);
                send_message(&session.tx, Message::Seek(target))?;
            }
        }
        Ok(())
    }

    /// Drains the time channel and returns the most recent snapshot, keeping
    /// it cached. The cache is never cleared by a drain that found nothing.
    pub fn get_time(&mut self) -> (r: Option<TrackTime>)
        ensures
            r == final(self)@.cached,
            old(self)@.cached is Some ==> final(self)@.cached is Some,
            final(self)@ == (PlayerModel { cached: final(self)@.cached, ..old(self)@ }),
    {
        let mut last: Option<TrackTime> = None;
        if let Some(session) = &self.session {
            let pending: usize = queued_messages(&session.rx_t);
            let mut i: usize = 0;
            while i < pending
                decreases pending - i,
            {
                match try_recv_message(&session.rx_t) {
                    Some(message) => {
                        if let Message::Time(time) = message {
                            last = Some(time);
                        }
                    },
                    None => {
                        break;
                    },
                }
                i = i + 1;
            }
        }
        if last.is_some() {
            self.cached_get_time = last;
        }
        self.cached_get_time
    }

    /// Whether the worker reported the natural end of its track. Once seen,
    /// the answer stays true until the next `play`; repeated calls never
    /// toggle it back.
    pub fn has_ended(&mut self) -> (r: bool)
        ensures
            r == final(self)@.ended,
            old(self)@.ended ==> final(self)@.ended,
            !old(self)@.active ==> final(self)@ == old(self)@,
            final(self)@ == (PlayerModel { ended: final(self)@.ended, ..old(self)@ }),
    {
        let mut saw_end = false;
        if let Some(session) = &self.session {
            let pending: usize = queued_messages(&session.rx_e);
            let mut i: usize = 0;
            while i < pending
                decreases pending - i,
            {
                match try_recv_message(&session.rx_e) {
                    Some(message) => {
                        if let Message::End = message {
                            saw_end = true;
                        }
                    },
                    None => {
                        break;
                    },
                }
                i = i + 1;
            }
        }
        if saw_end {
            self.ended = true;
        }
        self.ended
    }

    /// Whether a worker session is attached. This does not say whether the
    /// track is paused.
    pub fn is_playing(&self) -> (r: bool)
        ensures
            r == self@.active,
    {
        self.session.is_some()
    }

    /// Asks the current worker to stop without reporting an end. With no
    /// session attached this is a no-op that always succeeds.
    pub fn end_current(&self) -> (r: Result<(), NError>)
        ensures
            !self@.active ==> r is Ok,
            r matches Err(e) ==> e == NError::ChannelClosed,
    {
        if let Some(session) = &self.session {
            send_message(&session.tx, Message::Exit)?;
        }
        Ok(())
    }

    /// Starts a new session for a track given by its file path: the path is
    /// validated as a track handle first, so an unsupported extension is
    /// rejected before anything is opened. On success the caller receives
    /// the path to open and the worker half of the session.
    pub fn play_from_path(&mut self, path: String) -> (r: Result<(String, WorkerLink), NError>)
        ensures
            r is Ok <==> (crate::music_track::extension_spec(path@) matches Some(e)
                && crate::music_track::extension_supported_spec(e)),
            r matches Ok(pair) ==> pair.0@ == path@ && pair.1.volume == old(self)@.volume
                && pair.1.playback_speed == old(self)@.speed,
            r is Ok ==> final(self)@ == (PlayerModel {
                paused: false,
                volume: old(self)@.volume,
                speed: old(self)@.speed,
                cached: None,
                active: true,
                ended: false,
            }),
            r matches Err(e) ==> e == NError::UnsupportedFormat && final(self)@ == old(self)@,
    {
        let track = crate::music_track::MusicTrack::new(path)?;
        Ok(self.play_from_track(&track))
    }

    /// Starts a new session for an already validated track handle: the
    /// caller receives the track's path to open and the worker half of the
    /// session.
    pub fn play_from_track(&mut self, track: &crate::music_track::MusicTrack) -> (r: (
        String,
        WorkerLink,
    ))
        ensures
            r.0@ == track@.path,
            r.1.volume == old(self)@.volume,
            r.1.playback_speed == old(self)@.speed,
            final(self)@ == (PlayerModel {
                paused: false,
                volume: old(self)@.volume,
                speed: old(self)@.speed,
                cached: None,
                active: true,
                ended: false,
            }),
    {
        let path = track.path().clone();
        let link = self.play();
        (path, link)
    }

    /// Starts a new session: asks any previous worker to exit, attaches three
    /// fresh channels and resets the per-session state. The returned link is
    /// the worker's half; whoever runs the decode loop takes it.
    pub fn play(&mut self) -> (link: WorkerLink)
        ensures
            final(self)@ == (PlayerModel {
                paused: false,
                volume: old(self)@.volume,
                speed: old(self)@.speed,
                cached: None,
                active: true,
                ended: false,
            }),
            link.volume == old(self)@.volume,
            link.playback_speed == old(self)@.speed,
    {
        if let Some(session) = &self.session {
            // Supersede: the previous worker is asked to exit; if it already
            // died the channel is simply gone and there is nothing to stop.
            let _ = send_message(&session.tx, Message::Exit);
        }
        let (tx, rx) = message_channel();
        let (tx_t, rx_t) = message_channel();
        let (tx_e, rx_e) = message_channel();
        self.session = Some(Session { tx, rx_t, rx_e });
        self.is_paused = false;
        self.ended = false;
        self.cached_get_time = None;
        WorkerLink {
            rx_control: rx,
            tx_time: tx_t,
            tx_end: tx_e,
            volume: self.volume,
            playback_speed: self.playback_speed,
        }
    }
}

impl Default for Player {
    /// Full volume at natural speed, no session.
    fn default() -> (r: Self)
        ensures
            r@ == (PlayerModel {
                paused: false,
                volume: 1000,
                speed: 1000,
                cached: None,
                active: false,
                ended: false,
            }),
    {
        Player::new(1000, 1000)
    }
}

} // verus!

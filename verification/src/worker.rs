//! The decode worker's decisions, as pure verified functions.
//!
//! The worker thread itself runs outside the library: it pulls packets from
//! a format session, decodes them and writes to the sink. Every decision it
//! takes — how a control message changes its state, when the loop ends, how
//! a packet timestamp becomes a time snapshot, when the sink is reopened —
//! is taken by calling into this module.

use crate::Message;
use crate::TrackTime;
use vstd::prelude::*;

verus! {

/// The worker's own control state: what the owner's messages steer.
#[derive(Copy, Clone, Debug, PartialEq, Eq, Structural)]
pub struct WorkerState {
    /// Whether playback is held; while held the worker blocks on the control
    /// channel instead of polling it.
    pub is_paused: bool,
    /// Current output volume in per-mille.
    pub volume: u32,
    /// Current playback speed in per-mille.
    pub speed: u32,
    /// Whether an exit was requested; the worker then stops without
    /// reporting an end.
    pub exit: bool,
}

impl WorkerState {
    /// The state a fresh session starts from: playing, at the volume and
    /// speed the owner handed over.
    pub fn new(volume: u32, playback_speed: u32) -> (r: WorkerState)
        ensures
            r == (WorkerState { is_paused: false, volume: volume, speed: playback_speed, exit: false }),
    {
        WorkerState { is_paused: false, volume, speed: playback_speed, exit: false }
    }
}

/// What the worker must do right after applying one control message.
#[derive(Copy, Clone, Debug, PartialEq, Eq, Structural)]
pub enum ControlAction {
    /// Nothing beyond the state change: carry on with the loop.
    Proceed,
    /// Perform a coarse seek to this position, in milliseconds.
    DoSeek(u64),
    /// Leave the loop now, without reporting an end.
    Quit,
}

/// Applies one control message to the worker state and says what to do:
/// `Play`/`Pause` flip the paused flag, `Volume` and `PlaybackSpeed` replace
/// their values, `Exit` marks the exit and quits, `Seek` asks for a seek,
/// and the worker-to-owner messages (`Time`, `End`) change nothing.
pub fn apply_message(state: &mut WorkerState, message: Message) -> (r: ControlAction)
    ensures
        message == Message::Play ==> *final(state) == (WorkerState {
            is_paused: false,
            ..*old(state)
        }) && r == ControlAction::Proceed,
        message == Message::Pause ==> *final(state) == (WorkerState {
            is_paused: true,
            ..*old(state)
        }) && r == ControlAction::Proceed,
        message matches Message::Volume(v) ==> *final(state) == (WorkerState {
            volume: v,
            ..*old(state)
        }) && r == ControlAction::Proceed,
        message matches Message::PlaybackSpeed(s) ==> *final(state) == (WorkerState {
            speed: s,
            ..*old(state)
        }) && r == ControlAction::Proceed,
        message == Message::Exit ==> *final(state) == (WorkerState {
            exit: true,
            ..*old(state)
        }) && r == ControlAction::Quit,
        message matches Message::Seek(t) ==> *final(state) == *old(state) && r
            == ControlAction::DoSeek(t),
        message matches Message::Time(t) ==> *final(state) == *old(state) && r
            == ControlAction::Proceed,
        message == Message::End ==> *final(state) == *old(state) && r == ControlAction::Proceed,
{
    match message {
        Message::Play => {
            state.is_paused = false;
            ControlAction::Proceed
        },
        Message::Pause => {
            state.is_paused = true;
            ControlAction::Proceed
        },
        Message::Volume(v) => {
            state.volume = v;
            ControlAction::Proceed
        },
        Message::PlaybackSpeed(s) => {
            state.speed = s;
            ControlAction::Proceed
        },
        Message::Exit => {
            state.exit = true;
            ControlAction::Quit
        },
        Message::Seek(t) => ControlAction::DoSeek(t),
        Message::Time(_) => ControlAction::Proceed,
        Message::End => ControlAction::Proceed,
    }
}

/// What one attempt at decoding the next packet came to, with the decoded
/// samples kept aside: the worker classifies the session's answer into one
/// of these and asks `continues_after` / `writes_output` what follows.
#[derive(Copy, Clone, Debug, PartialEq, Eq, Structural)]
pub enum DecodeEvent {
    /// The packet decoded; its samples go to the sink.
    Decoded,
    /// One corrupt packet: logged and skipped, playback carries on.
    CorruptPacket,
    /// The session is beyond recovery: the loop ends as at end of stream.
    FatalError,
    /// The natural end of the stream.
    EndOfStream,
}

/// Whether the decode loop carries on after this event: a successful decode
/// or a single corrupt packet does, a fatal error or the end of the stream
/// does not.
pub fn continues_after(event: DecodeEvent) -> (r: bool)
    ensures
        r == (event == DecodeEvent::Decoded || event == DecodeEvent::CorruptPacket),
{
    match event {
        DecodeEvent::Decoded => true,
        DecodeEvent::CorruptPacket => true,
        DecodeEvent::FatalError => false,
        DecodeEvent::EndOfStream => false,
    }
}

/// Whether this event yields samples for the sink: only a successful
/// decode does.
pub fn writes_output(event: DecodeEvent) -> (r: bool)
    ensures
        r == (event == DecodeEvent::Decoded),
{
    match event {
        DecodeEvent::Decoded => true,
        DecodeEvent::CorruptPacket => false,
        DecodeEvent::FatalError => false,
        DecodeEvent::EndOfStream => false,
    }
}

/// Whether the worker, once its loop is over, reports the natural end of the
/// track: it does unless an explicit exit was requested.
pub fn reports_end(state: &WorkerState) -> (r: bool)
    ensures
        r == !state.exit,
{
    !state.exit
}

/// A value capped at the largest `u64`.
pub open spec fn capped_u64_spec(v: int) -> int {
    if v <= u64::MAX {
        v
    } else {
        u64::MAX as int
    }
}

/// Container ticks turned into milliseconds through the time base
/// `tb_num / tb_den` (seconds per tick), truncating below one millisecond.
pub open spec fn ticks_to_ms_spec(ts: int, tb_num: int, tb_den: int) -> int {
    (ts * tb_num * 1000) / tb_den
}

/// Converts a tick count to milliseconds through the time base, capped at
/// the largest representable time.
pub fn ticks_to_ms(ts: u64, tb_num: u32, tb_den: u32) -> (r: u64)
    requires
        tb_den > 0,
    ensures
        r == capped_u64_spec(ticks_to_ms_spec(ts as int, tb_num as int, tb_den as int)),
{
    proof {
        assert((ts as int) * (tb_num as int) <= (u64::MAX as int) * (u32::MAX as int))
            by (nonlinear_arith)
            requires
                0 <= ts as int <= u64::MAX as int,
                0 <= tb_num as int <= u32::MAX as int,
        ;
        assert(((ts as int) * (tb_num as int)) * 1000 <= ((u64::MAX as int) * (u32::MAX as int))
            * 1000) by (nonlinear_arith)
            requires
                0 <= (ts as int) * (tb_num as int) <= (u64::MAX as int) * (u32::MAX as int),
        ;
    }
    let v: u128 = ts as u128 * tb_num as u128 * 1000 / tb_den as u128;
    if v > u64::MAX as u128 {
        u64::MAX
    } else {
        v as u64
    }
}

/// The total tick count of a track: its start timestamp plus its frame
/// count, capped rather than wrapped when a container overstates them.
pub fn duration_ticks(start_ts: u64, n_frames: u64) -> (r: u64)
    ensures
        r == capped_u64_spec(start_ts + n_frames),
{
    let sum: u128 = start_ts as u128 + n_frames as u128;
    if sum > u64::MAX as u128 {
        u64::MAX
    } else {
        sum as u64
    }
}

/// The time snapshot the worker sends for one packet: the packet timestamp
/// and the track duration, both through the container's time base. The
/// playback speed plays no part here: speed changes the rate samples leave
/// the sink, never the reported position or length.
pub fn packet_time(ts: u64, duration: u64, tb_num: u32, tb_den: u32) -> (r: TrackTime)
    requires
        tb_den > 0,
    ensures
        r.position_ms == capped_u64_spec(ticks_to_ms_spec(ts as int, tb_num as int, tb_den as int)),
        r.length_ms == capped_u64_spec(
            ticks_to_ms_spec(duration as int, tb_num as int, tb_den as int),
        ),
{
    TrackTime {
        position_ms: ticks_to_ms(ts, tb_num, tb_den),
        length_ms: ticks_to_ms(duration, tb_num, tb_den),
    }
}

} // verus!

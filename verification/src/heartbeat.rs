use vstd::prelude::*;

use crate::pval::PValue;

verus! {

/// What one turn of the heartbeat worker observed.
#[derive(Debug, Clone, Copy, PartialEq, Eq, Structural)]
pub enum BeatEvent {
    /// The muxer yielded no device handle.
    DeviceUnavailable,
    /// The heartbeat service session did not open.
    ClientFailed,
    /// The receive with its twelve-second wait failed.
    ReceiveFailed,
    /// The echo could not be sent back.
    SendFailed,
    /// One receive followed by one send completed without error.
    RoundTrip,
}

/// What the worker does after a turn.
#[derive(Debug, Clone, Copy, PartialEq, Eq, Structural)]
pub enum BeatAction {
    /// Sleep 100 ms, then fetch the device and reconnect.
    SleepAndRetry,
    /// Leave the inner loop and reconnect at once.
    Reconnect,
    /// Stay in the inner loop and wait for the next beat.
    KeepBeating,
}

/// The published worker status: whether the last beat succeeded.
pub struct HeartbeatState {
    pub last_beat_successful: bool,
}

impl HeartbeatState {
    /// Before the worker ran, no beat has succeeded.
    pub fn new() -> (r: Self)
        ensures
            !r.last_beat_successful,
    {
        HeartbeatState { last_beat_successful: false }
    }
}

/// The flag one turn publishes: set exactly by a completed round-trip.
pub open spec fn beat_flag_of(event: BeatEvent) -> bool {
    event is RoundTrip
}

/// One turn of the heartbeat worker: the flag is set exactly when a full
/// receive-and-send round-trip completed; a failure to reach the device or
/// open the session waits and retries, a failure inside the session breaks
/// out and reconnects.
pub fn beat_step(state: &mut HeartbeatState, event: BeatEvent) -> (a: BeatAction)
    ensures
        final(state).last_beat_successful == beat_flag_of(event),
        a == BeatAction::KeepBeating <==> event is RoundTrip,
        a == BeatAction::SleepAndRetry <==> (event is DeviceUnavailable || event is ClientFailed),
        a == BeatAction::Reconnect <==> (event is ReceiveFailed || event is SendFailed),
{
    match event {
        BeatEvent::DeviceUnavailable => {
            state.last_beat_successful = false;
            BeatAction::SleepAndRetry
        },
        BeatEvent::ClientFailed => {
            state.last_beat_successful = false;
            BeatAction::SleepAndRetry
        },
        BeatEvent::ReceiveFailed => {
            state.last_beat_successful = false;
            BeatAction::Reconnect
        },
        BeatEvent::SendFailed => {
            state.last_beat_successful = false;
            BeatAction::Reconnect
        },
        BeatEvent::RoundTrip => {
            state.last_beat_successful = true;
            BeatAction::KeepBeating
        },
    }
}

/// The reply of one beat: the worker answers with exactly the property list
/// it received — the echo that keeps the lockdown session alive.
pub fn heartbeat_echo(received: PValue) -> (r: PValue)
    ensures
        r == received,
{
    received
}

/// The flag after a run of turns, starting from `init`.
pub open spec fn flag_after(init: bool, events: Seq<BeatEvent>) -> bool
    decreases events.len(),
{
    if events.len() == 0 {
        init
    } else {
        flag_after(beat_flag_of(events[0]), events.drop_first())
    }
}

/// Law: after any run of turns the flag reports the latest turn alone — it is
/// true exactly when the most recent turn was a completed round-trip, so every
/// failure clears it on the spot.
pub proof fn lemma_flag_reports_last_turn(init: bool, events: Seq<BeatEvent>)
    ensures
        flag_after(init, events) == if events.len() == 0 {
            init
        } else {
            events.last() is RoundTrip
        },
    decreases events.len(),
{
    if events.len() > 0 {
        lemma_flag_reports_last_turn(beat_flag_of(events[0]), events.drop_first());
        if events.len() > 1 {
            assert(events.drop_first().last() == events.last());
        }
    }
}

/// Law: the flag is true only after at least one full receive-and-send
/// round-trip has completed; from a fresh start, no run without a round-trip
/// sets it.
pub proof fn lemma_flag_requires_round_trip(events: Seq<BeatEvent>)
    requires
        flag_after(false, events),
    ensures
        exists|i: int| 0 <= i < events.len() && events[i] is RoundTrip,
{
    lemma_flag_reports_last_turn(false, events);
    assert(events.len() > 0 && events.last() is RoundTrip);
    assert(events[events.len() - 1] is RoundTrip);
}

} // verus!

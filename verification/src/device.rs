use vstd::prelude::*;

use crate::Errors;

verus! {

/// Retry budget of the device fetch: five seconds, spent in 250 ms steps.
pub struct FetchState {
    pub remaining_ms: u16,
}

impl FetchState {
    /// The budget holds whole sleep steps only.
    pub open spec fn wf(&self) -> bool {
        self.remaining_ms % 250 == 0 && self.remaining_ms > 0
    }

    /// A fresh fetch has the whole five seconds left.
    pub fn new() -> (r: Self)
        ensures
            r.wf(),
            r.remaining_ms == 5000,
    {
        FetchState { remaining_ms: 5000 }
    }
}

/// What the fetch loop does after one attempt.
#[derive(Debug, Clone, Copy, PartialEq, Eq, Structural)]
pub enum FetchAction {
    /// The handle arrived: return it.
    Done,
    /// Sleep 250 ms and ask again.
    SleepAndRetry,
    /// The budget ran out: report that no device is there.
    GiveUp,
}

/// One attempt to get the device handle from the muxer. A handle ends the
/// wait; otherwise 250 ms of the budget are spent, and spending the last step
/// gives up with `NoDevice`. The budget shrinks on every failed attempt, so
/// the wait ends after at most twenty of them.
pub fn fetch_step(state: &mut FetchState, got_device: bool) -> (a: FetchAction)
    requires
        old(state).wf(),
    ensures
        got_device ==> a == FetchAction::Done && *final(state) == *old(state),
        !got_device && old(state).remaining_ms > 250 ==> a == FetchAction::SleepAndRetry
            && final(state).remaining_ms == old(state).remaining_ms - 250 && final(state).wf(),
        !got_device && old(state).remaining_ms == 250 ==> a == FetchAction::GiveUp,
        !got_device ==> final(state).remaining_ms < old(state).remaining_ms,
{
    if got_device {
        return FetchAction::Done;
    }
    state.remaining_ms = state.remaining_ms - 250;
    if state.remaining_ms == 0 {
        FetchAction::GiveUp
    } else {
        FetchAction::SleepAndRetry
    }
}

/// The error a fetch that gave up reports.
pub fn fetch_failure() -> (e: Errors)
    ensures
        e == Errors::NoDevice,
{
    Errors::NoDevice
}

/// Returns the device identifier when the shim has started and the muxer
/// yielded a handle with that identifier; before `start`, nothing.
pub fn fetch_udid(started: bool, device_udid: Option<String>) -> (r: Option<String>)
    ensures
        r == if started {
            device_udid
        } else {
            None::<String>
        },
{
    if !started {
        return None;
    }
    device_udid
}

} // verus!

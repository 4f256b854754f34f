//! How a capture session is started and stopped, step by step.
use crate::audio::status::{MicStatus, MicStatusView};
use vstd::prelude::*;

verus! {

/// Delay after sending 0x58 START before resetting the A2DP transport, in
/// milliseconds.
pub const A2DP_RESET_DELAY_MS: u64 = 800;

/// What is to be done next to start a capture.
#[derive(Clone, Copy, PartialEq, Eq, Structural, Debug)]
pub enum StartStep {
    OpenDecoder,
    OpenOutput,
    /// Take the channel that the audio SDUs come through.
    TakeChannel,
    /// Start the decode thread on the channel.
    SpawnDecoder,
    /// Send 0x58 START.
    SendStart,
    /// Give the channel up again.
    ClearChannel,
    /// Have the A2DP transport reset after the delay.
    ScheduleReset,
    /// Nothing: the capture runs.
    Started,
    /// Nothing: there is no capture.
    Failed,
}

impl StartStep {
    /// The step that follows, given whether this one succeeded. Only opening
    /// the decoder and the output and sending START can fail.
    pub open spec fn next(self, ok: bool) -> Self {
        match self {
            StartStep::OpenDecoder if ok => StartStep::OpenOutput,
            StartStep::OpenOutput if ok => StartStep::TakeChannel,
            StartStep::TakeChannel => StartStep::SpawnDecoder,
            StartStep::SpawnDecoder => StartStep::SendStart,
            StartStep::SendStart => if ok {
                StartStep::ScheduleReset
            } else {
                StartStep::ClearChannel
            },
            StartStep::ScheduleReset | StartStep::Started => StartStep::Started,
            _ => StartStep::Failed,
        }
    }

    /// The state of the microphone after this step, which ended at `now`: the
    /// stall grace period begins when the channel is taken.
    pub open spec fn next_status(self, status: MicStatusView, now: nat) -> MicStatusView {
        if self is TakeChannel {
            status.marked(now)
        } else {
            status
        }
    }

    /// Takes in whether this step succeeded.
    pub fn advance(self, status: &mut MicStatus, ok: bool, now: u128) -> (step: Self)
        ensures
            step == self.next(ok),
            final(status)@ == self.next_status(old(status)@, now as nat),
            self is TakeChannel ==> final(status)@ == (MicStatusView {
                last_sdu: Some(now as nat),
                ..old(status)@
            }),
            !(self is TakeChannel) ==> final(status)@ == old(status)@,
    {
        match self {
            StartStep::OpenDecoder => {
                if ok {
                    StartStep::OpenOutput
                } else {
                    StartStep::Failed
                }
            },
            StartStep::OpenOutput => {
                if ok {
                    StartStep::TakeChannel
                } else {
                    StartStep::Failed
                }
            },
            StartStep::TakeChannel => {
                // Start the stall grace period now; the device should deliver
                // SDUs (which refresh this) well within the stall timeout.
                status.mark_sdu(now);
                StartStep::SpawnDecoder
            },
            StartStep::SpawnDecoder => StartStep::SendStart,
            StartStep::SendStart => {
                if ok {
                    StartStep::ScheduleReset
                } else {
                    StartStep::ClearChannel
                }
            },
            StartStep::ScheduleReset => StartStep::Started,
            StartStep::Started => StartStep::Started,
            StartStep::ClearChannel => StartStep::Failed,
            StartStep::Failed => StartStep::Failed,
        }
    }
}

/// What is to be done next to stop a capture.
#[derive(Clone, Copy, PartialEq, Eq, Structural, Debug)]
pub enum StopStep {
    /// Send 0x58 STOP.
    SendStop,
    /// Give the channel up, which ends the decode thread.
    ClearChannel,
    /// Wait for the decode thread.
    JoinDecoder,
    ResetTransport,
    /// Nothing: the capture is over.
    Stopped,
}

impl StopStep {
    /// The step that follows, whether or not this one succeeded.
    pub open spec fn next(self) -> Self {
        match self {
            StopStep::SendStop => StopStep::ClearChannel,
            StopStep::ClearChannel => StopStep::JoinDecoder,
            StopStep::JoinDecoder => StopStep::ResetTransport,
            StopStep::ResetTransport | StopStep::Stopped => StopStep::Stopped,
        }
    }

    /// Goes on to the step that follows.
    pub fn advance(self) -> (step: Self)
        ensures
            step == self.next(),
    {
        match self {
            StopStep::SendStop => StopStep::ClearChannel,
            StopStep::ClearChannel => StopStep::JoinDecoder,
            StopStep::JoinDecoder => StopStep::ResetTransport,
            StopStep::ResetTransport => StopStep::Stopped,
            StopStep::Stopped => StopStep::Stopped,
        }
    }
}

/// The step that a start has come to after some outcomes.
pub open spec fn start_after(outcomes: Seq<bool>) -> StartStep
    decreases outcomes.len(),
{
    if outcomes.len() == 0 {
        StartStep::OpenDecoder
    } else {
        start_after(outcomes.drop_last()).next(outcomes.last())
    }
}

/// Whether the channel was taken and not given up again.
pub open spec fn channel_is_held(outcomes: Seq<bool>) -> bool
    decreases outcomes.len(),
{
    outcomes.len() > 0 && match start_after(outcomes.drop_last()) {
        StartStep::TakeChannel => true,
        StartStep::ClearChannel => false,
        _ => channel_is_held(outcomes.drop_last()),
    }
}

/// The step that a stop has come to after `n` steps.
pub open spec fn stop_after(n: nat) -> StopStep
    decreases n,
{
    if n == 0 {
        StopStep::SendStop
    } else {
        stop_after((n - 1) as nat).next()
    }
}

/// A capture that runs holds the channel, and one that could not be started
/// does not, however far it came.
pub proof fn failed_start_gives_the_channel_up(outcomes: Seq<bool>)
    ensures
        start_after(outcomes) is Started ==> channel_is_held(outcomes),
        start_after(outcomes) is Failed ==> !channel_is_held(outcomes),
        channel_is_held(outcomes) == match start_after(outcomes) {
            StartStep::SpawnDecoder
            | StartStep::SendStart
            | StartStep::ClearChannel
            | StartStep::ScheduleReset
            | StartStep::Started => true,
            _ => false,
        },
    decreases outcomes.len(),
{
    if outcomes.len() > 0 {
        failed_start_gives_the_channel_up(outcomes.drop_last());
    }
}

/// After six steps a capture runs if the decoder and the output could be
/// opened and START could be sent, and has failed if one of these could not.
pub proof fn starts_if_nothing_fails(outcomes: Seq<bool>)
    requires
        outcomes.len() == 6,
    ensures
        start_after(outcomes) == (if outcomes[0] && outcomes[1] && outcomes[4] {
            StartStep::Started
        } else {
            StartStep::Failed
        }),
{
    reveal_with_fuel(start_after, 7);
    assert(outcomes.drop_last().last() == outcomes[4]);
    assert(outcomes.drop_last().drop_last().drop_last().drop_last().last() == outcomes[1]);
    assert(outcomes.drop_last().drop_last().drop_last().drop_last().drop_last().last()
        == outcomes[0]);
}

/// A stop is through after four steps, whatever fails on the way, and the
/// channel is given up before the decode thread, which ends with it, is waited
/// for.
pub proof fn stop_goes_through()
    ensures
        stop_after(0) is SendStop,
        stop_after(1) is ClearChannel,
        stop_after(2) is JoinDecoder,
        stop_after(3) is ResetTransport,
        forall|n: nat| n >= 4 ==> stop_after(n) is Stopped,
{
    reveal_with_fuel(stop_after, 5);
    assert forall|n: nat| n >= 4 implies stop_after(n) is Stopped by {
        stopped_stays_stopped(n);
    }
}

proof fn stopped_stays_stopped(n: nat)
    requires
        n >= 4,
    ensures
        stop_after(n) is Stopped,
    decreases n,
{
    reveal_with_fuel(stop_after, 5);
    if n > 4 {
        stopped_stays_stopped((n - 1) as nat);
    }
}

/// The transport is reset 800 milliseconds after START was sent.
pub proof fn transport_is_reset_after_800_ms()
    ensures
        A2DP_RESET_DELAY_MS == 800,
{
}

/// The decoder and the output are opened, the channel is taken, the decode
/// thread started and START sent, in that order. If the decoder or the output
/// cannot be opened, nothing further is done. If START cannot be sent, the
/// channel is given up. If it was sent, the transport is to be reset, and the
/// capture runs from then on.
pub proof fn start_goes_in_order(outcomes: Seq<bool>)
    ensures
        ({
            let n = outcomes.len();
            let step = start_after(outcomes);
            let ready = (n > 0 ==> outcomes[0]) && (n > 1 ==> outcomes[1]);
            &&& !ready ==> step is Failed
            &&& ready && n == 0 ==> step is OpenDecoder
            &&& ready && n == 1 ==> step is OpenOutput
            &&& ready && n == 2 ==> step is TakeChannel
            &&& ready && n == 3 ==> step is SpawnDecoder
            &&& ready && n == 4 ==> step is SendStart
            &&& ready && n == 5 && outcomes[4] ==> step is ScheduleReset
            &&& ready && n == 5 && !outcomes[4] ==> step is ClearChannel
            &&& ready && n >= 6 && outcomes[4] ==> step is Started
            &&& ready && n >= 6 && !outcomes[4] ==> step is Failed
        }),
    decreases outcomes.len(),
{
    if outcomes.len() > 0 {
        start_goes_in_order(outcomes.drop_last());
    }
}

/// One step of a start: where it leads, on success and on failure.
pub proof fn start_step_by_step(ok: bool)
    ensures
        ok ==> StartStep::OpenDecoder.next(ok) is OpenOutput,
        !ok ==> StartStep::OpenDecoder.next(ok) is Failed,
        ok ==> StartStep::OpenOutput.next(ok) is TakeChannel,
        !ok ==> StartStep::OpenOutput.next(ok) is Failed,
        StartStep::TakeChannel.next(ok) is SpawnDecoder,
        StartStep::SpawnDecoder.next(ok) is SendStart,
        ok ==> StartStep::SendStart.next(ok) is ScheduleReset,
        !ok ==> StartStep::SendStart.next(ok) is ClearChannel,
        StartStep::ClearChannel.next(ok) is Failed,
        StartStep::ScheduleReset.next(ok) is Started,
        StartStep::Started.next(ok) is Started,
        StartStep::Failed.next(ok) is Failed,
{
}

/// A start marks the time when the channel was taken, as if an SDU had come
/// then, and shows nothing else.
pub proof fn start_marks_the_time_once(step: StartStep, status: MicStatusView, now: nat)
    ensures
        step is TakeChannel ==> step.next_status(status, now) == (MicStatusView {
            last_sdu: Some(now),
            ..status
        }),
        !(step is TakeChannel) ==> step.next_status(status, now) == status,
{
}

/// One step of a stop: STOP is sent, the channel given up, the decode thread
/// waited for and the transport reset, in that order, and nothing after that.
pub proof fn stop_step_by_step()
    ensures
        StopStep::SendStop.next() is ClearChannel,
        StopStep::ClearChannel.next() is JoinDecoder,
        StopStep::JoinDecoder.next() is ResetTransport,
        StopStep::ResetTransport.next() is Stopped,
        StopStep::Stopped.next() is Stopped,
{
}

} // verus!

//! The activity monitor of the hi-res microphone: it runs the AACP 0x58 capture
//! only while an app is recording from the virtual input device.
//!
//! The monitor decides and the loop around it acts. In every phase the monitor
//! has one command for the loop; the loop carries it out and reports the
//! outcome as an event.
use crate::audio::status::{MicStatus, MicStatusView};
use vstd::prelude::*;

verus! {

/// How often the monitor polls the virtual source for activity, in milliseconds.
pub const POLL_INTERVAL_MS: u64 = 400;

/// If no audio SDUs arrive for this long while a capture is active, the stream
/// is considered stalled and the capture is torn down and restarted. In
/// nanoseconds.
pub const STALL_TIMEOUT: u128 = 2_000_000_000;

/// What the loop is to do next.
#[derive(Clone, Copy, PartialEq, Eq, Structural, Debug)]
pub enum Command {
    /// Wait for the request to stop, for a wake-up or for the poll interval.
    Wait,
    /// Look up which app records from the virtual source, whether the hi-res
    /// microphone is enabled, and what time it is.
    Poll,
    StartCapture,
    StopCapture,
    /// Look up whether conversation detection is to be paused for a capture.
    LoadPauseSetting,
    /// Ask the device whether conversation detection is on.
    QueryConversation,
    SetConversation(bool),
    /// Unload the virtual device and end.
    Exit,
}

/// What became of a command.
pub enum Event {
    /// The wait ended with the request to stop.
    StopRequested,
    /// The wait ended otherwise.
    Tick,
    /// The app that records, whether the microphone is enabled, and the time.
    Polled { app: Option<String>, enabled: bool, now: u128 },
    /// A capture was started, or could not be.
    CaptureStarted(bool),
    CaptureStopped,
    PauseSetting(bool),
    ConversationEnabled(bool),
    ConversationSet,
}

#[verifier::ext_equal]
pub enum EventView {
    StopRequested,
    Tick,
    Polled { app: Option<Seq<char>>, enabled: bool, now: nat },
    CaptureStarted(bool),
    CaptureStopped,
    PauseSetting(bool),
    ConversationEnabled(bool),
    ConversationSet,
}

impl View for Event {
    type V = EventView;

    open spec fn view(&self) -> EventView {
        match self {
            Event::StopRequested => EventView::StopRequested,
            Event::Tick => EventView::Tick,
            Event::Polled { app, enabled, now } => EventView::Polled {
                app: crate::audio::status::text_of(*app),
                enabled: *enabled,
                now: *now as nat,
            },
            Event::CaptureStarted(ok) => EventView::CaptureStarted(*ok),
            Event::CaptureStopped => EventView::CaptureStopped,
            Event::PauseSetting(pause) => EventView::PauseSetting(*pause),
            Event::ConversationEnabled(on) => EventView::ConversationEnabled(*on),
            Event::ConversationSet => EventView::ConversationSet,
        }
    }
}

/// What the monitor is in the middle of.
enum Phase {
    Waiting,
    Polling,
    /// A capture is being started for `app`.
    Starting { app: String },
    PauseLookup,
    ConversationLookup,
    /// Conversation detection is being turned off for the capture.
    Pausing,
    /// A stalled capture is being stopped, to be started again.
    RestartStopping,
    RestartStarting,
    /// The capture is being stopped for good; `last` if the monitor then ends.
    Stopping { last: bool },
    /// Conversation detection is being put back to `previous`, after a capture
    /// was stopped or without one.
    Restoring { previous: bool, last: bool, stopped: bool },
    Exited,
}

#[verifier::ext_equal]
pub enum PhaseView {
    Waiting,
    Polling,
    Starting { app: Seq<char> },
    PauseLookup,
    ConversationLookup,
    Pausing,
    RestartStopping,
    RestartStarting,
    Stopping { last: bool },
    Restoring { previous: bool, last: bool, stopped: bool },
    Exited,
}

impl View for Phase {
    type V = PhaseView;

    closed spec fn view(&self) -> PhaseView {
        match self {
            Phase::Waiting => PhaseView::Waiting,
            Phase::Polling => PhaseView::Polling,
            Phase::Starting { app } => PhaseView::Starting { app: app@ },
            Phase::PauseLookup => PhaseView::PauseLookup,
            Phase::ConversationLookup => PhaseView::ConversationLookup,
            Phase::Pausing => PhaseView::Pausing,
            Phase::RestartStopping => PhaseView::RestartStopping,
            Phase::RestartStarting => PhaseView::RestartStarting,
            Phase::Stopping { last } => PhaseView::Stopping { last: *last },
            Phase::Restoring { previous, last, stopped } => PhaseView::Restoring {
                previous: *previous,
                last: *last,
                stopped: *stopped,
            },
            Phase::Exited => PhaseView::Exited,
        }
    }
}

/// The activity monitor.
pub struct Monitor {
    phase: Phase,
    capture: bool,
    saved: Option<bool>,
}

#[verifier::ext_equal]
pub struct MonitorView {
    pub phase: PhaseView,
    /// Whether a capture is live.
    pub capture: bool,
    /// Conversation detection value saved while it is overridden off for a
    /// capture.
    pub saved: Option<bool>,
}

impl View for Monitor {
    type V = MonitorView;

    closed spec fn view(&self) -> MonitorView {
        MonitorView { phase: self.phase@, capture: self.capture, saved: self.saved }
    }
}

/// Whether a capture whose last audio SDU was noted in `status` has stalled.
pub open spec fn is_stalled(status: MicStatusView, now: nat) -> bool {
    match status.since_last_sdu(now) {
        Some(elapsed) => elapsed > STALL_TIMEOUT,
        None => false,
    }
}

impl MonitorView {
    /// The monitor before its first wait.
    pub open spec fn initial() -> Self {
        MonitorView { phase: PhaseView::Waiting, capture: false, saved: None }
    }

    /// Which phases go with a live capture and which without one, that only
    /// the value "on" is ever saved, and that no value is left saved at the end.
    pub open spec fn wf(self) -> bool {
        &&& match self.phase {
            PhaseView::Waiting | PhaseView::Polling => true,
            PhaseView::Starting { .. }
            | PhaseView::RestartStarting
            | PhaseView::Restoring { .. }
            | PhaseView::Exited => !self.capture,
            PhaseView::PauseLookup
            | PhaseView::ConversationLookup
            | PhaseView::Pausing
            | PhaseView::RestartStopping
            | PhaseView::Stopping { .. } => self.capture,
        }
        &&& self.saved == None::<bool> || self.saved == Some(true)
        &&& self.phase is Pausing ==> self.saved == Some(true)
        &&& self.phase is Exited ==> self.saved is None
        &&& self.phase matches PhaseView::Restoring { previous, .. } ==> previous && self.saved
            is None
    }

    /// What the loop is to do in this phase.
    pub open spec fn command(self) -> Command {
        match self.phase {
            PhaseView::Waiting => Command::Wait,
            PhaseView::Polling => Command::Poll,
            PhaseView::Starting { .. } | PhaseView::RestartStarting => Command::StartCapture,
            PhaseView::RestartStopping | PhaseView::Stopping { .. } => Command::StopCapture,
            PhaseView::PauseLookup => Command::LoadPauseSetting,
            PhaseView::ConversationLookup => Command::QueryConversation,
            PhaseView::Pausing => Command::SetConversation(false),
            PhaseView::Restoring { previous, .. } => Command::SetConversation(previous),
            PhaseView::Exited => Command::Exit,
        }
    }

    /// Whether `event` reports on the command of this phase.
    pub open spec fn accepts(self, event: EventView) -> bool {
        match self.command() {
            Command::Wait => event is StopRequested || event is Tick,
            Command::Poll => event is Polled,
            Command::StartCapture => event is CaptureStarted,
            Command::StopCapture => event is CaptureStopped,
            Command::LoadPauseSetting => event is PauseSetting,
            Command::QueryConversation => event is ConversationEnabled,
            Command::SetConversation(_) => event is ConversationSet,
            Command::Exit => false,
        }
    }

    /// The same monitor in another phase.
    pub open spec fn at(self, phase: PhaseView) -> Self {
        MonitorView { phase, ..self }
    }

    /// Where the monitor goes once conversation detection is as it was found.
    pub open spec fn rest(self, last: bool) -> Self {
        self.at(
            if last {
                PhaseView::Exited
            } else {
                PhaseView::Waiting
            },
        )
    }

    /// Where the monitor goes while no capture is wanted, and the one that was
    /// live, if any, is stopped: it puts conversation detection back first, if
    /// it was overridden.
    pub open spec fn settle(self, last: bool) -> Self {
        match self.saved {
            Some(previous) => MonitorView {
                phase: PhaseView::Restoring { previous, last, stopped: self.capture },
                capture: false,
                saved: None,
            },
            None => MonitorView { capture: false, ..self.rest(last) },
        }
    }

    /// The monitor after a poll.
    pub open spec fn polled(
        self,
        status: MicStatusView,
        app: Option<Seq<char>>,
        enabled: bool,
        now: nat,
    ) -> Self {
        match app {
            Some(app) if enabled && !self.capture => self.at(PhaseView::Starting { app }),
            Some(_) if enabled && is_stalled(status, now) => self.at(PhaseView::RestartStopping),
            Some(_) if enabled => self.at(PhaseView::Waiting),
            _ if self.capture => self.at(PhaseView::Stopping { last: !enabled && app is None }),
            _ => self.settle(!enabled && app is None),
        }
    }

    /// The monitor after `event`, where `status` is the state of the microphone
    /// before it.
    pub open spec fn next(self, status: MicStatusView, event: EventView) -> Self {
        match (self.phase, event) {
            (PhaseView::Waiting, EventView::StopRequested) => if self.capture {
                self.at(PhaseView::Stopping { last: true })
            } else {
                self.settle(true)
            },
            (PhaseView::Waiting, _) => self.at(PhaseView::Polling),
            (PhaseView::Polling, EventView::Polled { app, enabled, now }) => self.polled(
                status,
                app,
                enabled,
                now,
            ),
            (PhaseView::Starting { .. }, EventView::CaptureStarted(ok)) => MonitorView {
                phase: if ok {
                    PhaseView::PauseLookup
                } else {
                    PhaseView::Waiting
                },
                capture: ok,
                ..self
            },
            (PhaseView::PauseLookup, EventView::PauseSetting(pause)) => self.at(
                if pause {
                    PhaseView::ConversationLookup
                } else {
                    PhaseView::Waiting
                },
            ),
            (PhaseView::ConversationLookup, EventView::ConversationEnabled(on)) => if on {
                MonitorView { phase: PhaseView::Pausing, saved: Some(true), ..self }
            } else {
                self.at(PhaseView::Waiting)
            },
            (PhaseView::Pausing, _) => self.at(PhaseView::Waiting),
            (PhaseView::RestartStopping, _) => MonitorView {
                phase: PhaseView::RestartStarting,
                capture: false,
                ..self
            },
            (PhaseView::RestartStarting, EventView::CaptureStarted(ok)) => MonitorView {
                phase: PhaseView::Waiting,
                capture: ok,
                ..self
            },
            (PhaseView::Stopping { last }, _) => self.settle(last),
            (PhaseView::Restoring { last, .. }, _) => self.rest(last),
            _ => self,
        }
    }

    /// The state of the microphone after `event`.
    pub open spec fn next_status(self, status: MicStatusView, event: EventView) -> MicStatusView {
        match (self.phase, event) {
            // A live capture is shown for whoever records now.
            (PhaseView::Polling, EventView::Polled { app, enabled, .. }) if enabled && app is Some
                && self.capture => status.capturing(app),
            (PhaseView::Starting { app }, EventView::CaptureStarted(true)) => status.capturing(
                Some(app),
            ),
            // A capture that is over, or could not be started again, leaves nothing behind.
            (PhaseView::RestartStarting, EventView::CaptureStarted(false)) => MicStatusView::idle(),
            (PhaseView::Stopping { .. }, _) if self.saved is None => MicStatusView::idle(),
            (PhaseView::Restoring { stopped, .. }, _) if stopped => MicStatusView::idle(),
            // So does the monitor.
            _ if self.next(status, event).phase is Exited => MicStatusView::idle(),
            _ => status,
        }
    }
}

impl Monitor {
    /// A monitor that is about to wait for the first time.
    pub fn new() -> (monitor: Self)
        ensures
            monitor@ == MonitorView::initial(),
            monitor@.wf(),
            monitor@.phase is Waiting,
            !monitor@.capture,
            monitor@.saved is None,
    {
        Monitor { phase: Phase::Waiting, capture: false, saved: None }
    }

    /// What the loop is to do next.
    pub fn command(&self) -> (command: Command)
        ensures
            command == self@.command(),
    {
        match &self.phase {
            Phase::Waiting => Command::Wait,
            Phase::Polling => Command::Poll,
            Phase::Starting { .. } => Command::StartCapture,
            Phase::PauseLookup => Command::LoadPauseSetting,
            Phase::ConversationLookup => Command::QueryConversation,
            Phase::Pausing => Command::SetConversation(false),
            Phase::RestartStopping => Command::StopCapture,
            Phase::RestartStarting => Command::StartCapture,
            Phase::Stopping { .. } => Command::StopCapture,
            Phase::Restoring { previous, .. } => Command::SetConversation(*previous),
            Phase::Exited => Command::Exit,
        }
    }

    /// Whether a capture is live.
    pub fn capturing(&self) -> (capture: bool)
        ensures
            capture == self@.capture,
    {
        self.capture
    }

    /// Whether a stalled capture is being started again.
    pub fn restarting(&self) -> (restarting: bool)
        ensures
            restarting == (self@.phase is RestartStopping || self@.phase is RestartStarting),
    {
        match &self.phase {
            Phase::RestartStopping | Phase::RestartStarting => true,
            _ => false,
        }
    }

    /// Where the monitor goes once conversation detection is as it was found.
    fn rest(last: bool) -> (phase: Phase)
        ensures
            phase@ == (if last {
                PhaseView::Exited
            } else {
                PhaseView::Waiting
            }),
    {
        if last {
            Phase::Exited
        } else {
            Phase::Waiting
        }
    }

    /// Leaves the capture behind, if one was live, and puts conversation
    /// detection back, if it was overridden. If there is nothing to put back,
    /// `true` is returned, and the monitor waits or ends.
    fn settle(&mut self, last: bool) -> (settled: bool)
        ensures
            final(self)@ == old(self)@.settle(last),
            settled == (old(self)@.saved is None),
    {
        match self.saved {
            Some(previous) => {
                self.saved = None;
                self.phase = Phase::Restoring { previous, last, stopped: self.capture };
                self.capture = false;
                false
            },
            None => {
                self.phase = Self::rest(last);
                self.capture = false;
                true
            },
        }
    }

    /// Decides what to do after a poll.
    fn poll(&mut self, status: &mut MicStatus, app: Option<String>, enabled: bool, now: u128)
        requires
            old(self)@.phase is Polling,
        ensures
            final(self)@ == old(self)@.polled(
                old(status)@,
                crate::audio::status::text_of(app),
                enabled,
                now as nat,
            ),
            final(status)@ == old(self)@.next_status(
                old(status)@,
                (EventView::Polled {
                    app: crate::audio::status::text_of(app),
                    enabled,
                    now: now as nat,
                }),
            ),
    {
        let done: bool = !enabled && app.is_none();
        match app {
            Some(app) if enabled => {
                if !self.capture {
                    self.phase = Phase::Starting { app };
                } else {
                    let stalled: bool = match status.since_last_sdu(now) {
                        Some(elapsed) => elapsed > STALL_TIMEOUT,
                        None => false,
                    };
                    status.set_capture(Some(app));
                    self.phase = if stalled {
                        Phase::RestartStopping
                    } else {
                        Phase::Waiting
                    };
                }
            },
            _ => {
                if self.capture {
                    self.phase = Phase::Stopping { last: done };
                } else {
                    let settled: bool = self.settle(done);
                    if done && settled {
                        status.reset();
                    }
                }
            },
        }
    }

    /// Takes in what became of the last command.
    pub fn step(&mut self, status: &mut MicStatus, event: Event)
        requires
            old(self)@.wf(),
            old(self)@.accepts(event@),
        ensures
            final(self)@.wf(),
            final(self)@ == old(self)@.next(old(status)@, event@),
            final(status)@ == old(self)@.next_status(old(status)@, event@),
    {
        match event {
            Event::StopRequested => {
                if self.capture {
                    self.phase = Phase::Stopping { last: true };
                } else if self.settle(true) {
                    status.reset();
                }
            },
            Event::Tick => {
                self.phase = Phase::Polling;
            },
            Event::Polled { app, enabled, now } => {
                self.poll(status, app, enabled, now);
            },
            Event::CaptureStarted(ok) => {
                let mut phase: Phase = Phase::Waiting;
                std::mem::swap(&mut phase, &mut self.phase);
                self.capture = ok;
                match phase {
                    Phase::Starting { app } => {
                        if ok {
                            status.set_capture(Some(app));
                            self.phase = Phase::PauseLookup;
                        }
                    },
                    _ => {
                        if !ok {
                            status.reset();
                        }
                    },
                }
            },
            Event::CaptureStopped => {
                match &self.phase {
                    Phase::Stopping { last } => {
                        let last: bool = *last;
                        if self.settle(last) {
                            status.reset();
                        }
                    },
                    _ => {
                        self.capture = false;
                        self.phase = Phase::RestartStarting;
                    },
                }
            },
            Event::PauseSetting(pause) => {
                self.phase = if pause {
                    Phase::ConversationLookup
                } else {
                    Phase::Waiting
                };
            },
            Event::ConversationEnabled(on) => {
                // Only disable (and remember to restore) if it was on.
                if on {
                    self.saved = Some(true);
                    self.phase = Phase::Pausing;
                } else {
                    self.phase = Phase::Waiting;
                }
            },
            Event::ConversationSet => {
                match &self.phase {
                    Phase::Restoring { last, stopped, .. } => {
                        let last: bool = *last;
                        if *stopped || last {
                            status.reset();
                        }
                        self.phase = Self::rest(last);
                    },
                    _ => {
                        self.phase = Phase::Waiting;
                    },
                }
            },
        }
    }
}

/// Whether the monitor runs, given of its task, if it has one, whether that has
/// finished.
pub fn is_running(finished: Option<bool>) -> (running: bool)
    ensures
        running == (finished == Some(false)),
{
    match finished {
        Some(finished) => !finished,
        None => false,
    }
}

/// What the monitor is told is what became of its command: nothing is lost on
/// the way into the model.
pub proof fn events_are_seen_whole(event: Event)
    ensures
        event is StopRequested ==> event@ is StopRequested,
        event is Tick ==> event@ is Tick,
        event matches Event::Polled { app: Some(app), enabled, now } ==> event@
            == (EventView::Polled { app: Some(app@), enabled, now: now as nat }),
        event matches Event::Polled { app: None, enabled, now } ==> event@ == (EventView::Polled {
            app: None,
            enabled,
            now: now as nat,
        }),
        event matches Event::CaptureStarted(ok) ==> event@ == EventView::CaptureStarted(ok),
        event is CaptureStopped ==> event@ is CaptureStopped,
        event matches Event::PauseSetting(pause) ==> event@ == EventView::PauseSetting(pause),
        event matches Event::ConversationEnabled(on) ==> event@ == EventView::ConversationEnabled(
            on,
        ),
        event is ConversationSet ==> event@ is ConversationSet,
{
}

} // verus!

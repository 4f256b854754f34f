//! What holds of every run of the activity monitor.
use crate::audio::monitor::{Command, EventView, MonitorView, PhaseView};
use crate::audio::status::MicStatusView;
use vstd::prelude::*;

verus! {

/// One step of a run: an event, and the state of the microphone as the monitor
/// found it. Others write that state too, so it can be any.
pub struct Step {
    pub status: MicStatusView,
    pub event: EventView,
}

/// The monitor after a run.
pub open spec fn after(run: Seq<Step>) -> MonitorView
    decreases run.len(),
{
    if run.len() == 0 {
        MonitorView::initial()
    } else {
        after(run.drop_last()).next(run.last().status, run.last().event)
    }
}

/// Whether each event of a run reports on the command that was open.
pub open spec fn is_run(run: Seq<Step>) -> bool
    decreases run.len(),
{
    run.len() == 0 || (is_run(run.drop_last()) && after(run.drop_last()).accepts(run.last().event))
}

/// Whether a capture is live, going by what the loop reported.
pub open spec fn capture_is_live(run: Seq<Step>) -> bool
    decreases run.len(),
{
    if run.len() == 0 {
        false
    } else {
        match run.last().event {
            EventView::CaptureStarted(ok) => ok,
            EventView::CaptureStopped => false,
            _ => capture_is_live(run.drop_last()),
        }
    }
}

/// Whether the last poll found the microphone enabled and an app recording.
pub open spec fn wanted(run: Seq<Step>) -> bool
    decreases run.len(),
{
    if run.len() == 0 {
        false
    } else {
        match run.last().event {
            EventView::Polled { app, enabled, .. } => enabled && app is Some,
            _ => wanted(run.drop_last()),
        }
    }
}

/// Whether conversation detection is off because the monitor turned it off,
/// going by the commands that the monitor gave.
pub open spec fn conversation_is_overridden(run: Seq<Step>) -> bool
    decreases run.len(),
{
    if run.len() == 0 {
        false
    } else {
        match after(run).command() {
            Command::SetConversation(on) => !on,
            _ => conversation_is_overridden(run.drop_last()),
        }
    }
}

/// Whether a stalled capture could not be started again and none was started
/// since.
pub open spec fn restart_is_owed(run: Seq<Step>) -> bool
    decreases run.len(),
{
    if run.len() == 0 {
        false
    } else {
        match run.last().event {
            EventView::CaptureStarted(ok) => !ok && (after(run.drop_last()).phase is RestartStarting
                || restart_is_owed(run.drop_last())),
            _ => restart_is_owed(run.drop_last()),
        }
    }
}

/// Every run keeps the monitor well formed.
pub proof fn runs_are_well_formed(run: Seq<Step>)
    requires
        is_run(run),
    ensures
        after(run).wf(),
    decreases run.len(),
{
    if run.len() > 0 {
        runs_are_well_formed(run.drop_last());
    }
}

/// The monitor never loses track of the capture, starts one only while none is
/// live, stops one only while one is live, and ends without one.
pub proof fn captures_are_started_and_stopped_in_turn(run: Seq<Step>)
    requires
        is_run(run),
    ensures
        after(run).capture == capture_is_live(run),
        after(run).command() is StartCapture ==> !capture_is_live(run),
        after(run).command() is StopCapture ==> capture_is_live(run),
        after(run).command() is Exit ==> !capture_is_live(run),
    decreases run.len(),
{
    runs_are_well_formed(run);
    if run.len() > 0 {
        captures_are_started_and_stopped_in_turn(run.drop_last());
        runs_are_well_formed(run.drop_last());
    }
}

/// The capture runs only while an app is recording: one is started only if the
/// last poll found the microphone enabled and an app recording, and one is
/// left running over a wait only then.
pub proof fn capture_runs_only_while_wanted(run: Seq<Step>)
    requires
        is_run(run),
    ensures
        after(run).command() is StartCapture ==> wanted(run),
        after(run).command() is Wait && after(run).capture ==> wanted(run),
        after(run).capture && !(after(run).phase is Stopping) ==> wanted(run),
    decreases run.len(),
{
    if run.len() > 0 {
        capture_runs_only_while_wanted(run.drop_last());
        runs_are_well_formed(run.drop_last());
        // A restart is begun by the poll that found the capture stalled.
        restart_is_wanted(run);
    }
}

proof fn restart_is_wanted(run: Seq<Step>)
    requires
        is_run(run),
    ensures
        after(run).phase is RestartStopping || after(run).phase is RestartStarting
            || after(run).phase is Starting ==> wanted(run),
    decreases run.len(),
{
    if run.len() > 0 {
        restart_is_wanted(run.drop_last());
    }
}

/// A capture that is no longer wanted, because the microphone was disabled or
/// no app records any more, is stopped at once.
pub proof fn unwanted_capture_is_stopped(
    monitor: MonitorView,
    status: MicStatusView,
    app: Option<Seq<char>>,
    enabled: bool,
    now: nat,
)
    requires
        monitor.phase is Polling,
        monitor.capture,
        !(enabled && app is Some),
    ensures
        monitor.next(status, EventView::Polled { app, enabled, now }).command()
            is StopCapture,
{
}

/// Whether the microphone shows what the monitor does: it is shown as active
/// while a capture is live. While a stalled capture is being started again,
/// and while conversation detection is being put back after a capture, it is
/// still shown as active.
pub open spec fn shows(monitor: MonitorView, status: MicStatusView) -> bool {
    status.active == (monitor.capture || monitor.phase is RestartStarting || (
    monitor.phase matches PhaseView::Restoring { stopped, .. } && stopped))
}

/// What the microphone shows agrees with the monitor at the beginning and
/// after every event, and what others write in between does not change that.
/// So whenever the monitor waits or has ended, the microphone is shown as
/// active exactly if a capture is live.
pub proof fn status_shows_the_capture(
    monitor: MonitorView,
    status: MicStatusView,
    event: EventView,
    level: u32,
    now: nat,
)
    requires
        monitor.wf(),
        shows(monitor, status),
    ensures
        shows(MonitorView::initial(), MicStatusView::idle()),
        monitor.accepts(event) ==> shows(
            monitor.next(status, event),
            monitor.next_status(status, event),
        ),
        shows(monitor, status.marked(now)),
        shows(monitor, MicStatusView { level, ..status }),
        monitor.command() is Wait || monitor.command() is Exit ==> status.active
            == monitor.capture,
{
}

/// The app that the last poll found, given the one that the poll before found.
pub open spec fn found_after(found: Option<Seq<char>>, event: EventView) -> Option<Seq<char>> {
    match event {
        EventView::Polled { app, .. } => app,
        _ => found,
    }
}

/// Whether the microphone names the app that the last poll found, while a
/// capture is live or being started again, and no app while there is none.
/// Until a capture that is no longer wanted is over, it names the app as before.
pub open spec fn names(
    monitor: MonitorView,
    status: MicStatusView,
    found: Option<Seq<char>>,
) -> bool {
    match monitor.phase {
        PhaseView::Stopping { .. } => true,
        PhaseView::Restoring { stopped, .. } => stopped || status.app is None,
        PhaseView::Starting { app } => found == Some(app) && status.app is None,
        PhaseView::RestartStarting => status.app == found,
        _ => status.app == (if monitor.capture {
            found
        } else {
            None
        }),
    }
}

/// The microphone names the right app at the beginning and after every event,
/// and what others write in between does not change that. So whenever the
/// monitor waits, the app is the one that the last poll found, if a capture is
/// live, and none otherwise.
pub proof fn status_names_the_recorder(
    monitor: MonitorView,
    status: MicStatusView,
    found: Option<Seq<char>>,
    event: EventView,
    level: u32,
    now: nat,
)
    requires
        monitor.wf(),
        names(monitor, status, found),
    ensures
        names(MonitorView::initial(), MicStatusView::idle(), None),
        monitor.accepts(event) ==> names(
            monitor.next(status, event),
            monitor.next_status(status, event),
            found_after(found, event),
        ),
        names(monitor, status.marked(now), found),
        names(monitor, MicStatusView { level, ..status }, found),
        monitor.command() is Wait || monitor.command() is Exit ==> status.app == (
        if monitor.capture {
            found
        } else {
            None
        }),
{
}

/// When the monitor ends, nothing is left to be seen of it.
pub proof fn nothing_is_shown_after_the_end(
    monitor: MonitorView,
    status: MicStatusView,
    event: EventView,
)
    requires
        monitor.wf(),
        monitor.accepts(event),
        monitor.next(status, event).command() is Exit,
    ensures
        monitor.next_status(status, event) == MicStatusView::idle(),
{
}

/// A poll without a live capture leaves what is shown as it is, up to the next
/// wait, unless a capture is started or the monitor ends.
pub proof fn idle_poll_leaves_the_status_alone(
    monitor: MonitorView,
    status: MicStatusView,
    later: MicStatusView,
    app: Option<Seq<char>>,
    enabled: bool,
    now: nat,
)
    requires
        monitor.wf(),
        monitor.phase is Polling,
        !monitor.capture,
        !(enabled && app is Some),
        enabled || app is Some,
    ensures
        ({
            let event = EventView::Polled { app, enabled, now };
            let next = monitor.next(status, event);
            &&& monitor.next_status(status, event) == status
            &&& next.command() is Wait || {
                &&& next.accepts(EventView::ConversationSet)
                &&& next.next(later, EventView::ConversationSet).command() is Wait
                &&& next.next_status(later, EventView::ConversationSet) == later
            }
        }),
{
}

/// Whether the monitor is on its way out.
pub open spec fn is_ending(monitor: MonitorView) -> bool {
    match monitor.phase {
        PhaseView::Exited => true,
        PhaseView::Stopping { last } => last,
        PhaseView::Restoring { last, .. } => last,
        _ => false,
    }
}

/// How many commands are left to carry out on the way out.
pub open spec fn steps_left(monitor: MonitorView) -> nat {
    match monitor.phase {
        PhaseView::Stopping { .. } => 2,
        PhaseView::Restoring { .. } => 1,
        _ => 0,
    }
}

/// The monitor ends on request, and once the microphone is disabled and
/// nothing is recording, and for no other reason. Disabled while an app still
/// records, it stays, so that the app is not dropped from the virtual source.
pub proof fn monitor_ends_only_when_it_should(
    monitor: MonitorView,
    status: MicStatusView,
    event: EventView,
)
    requires
        monitor.wf(),
        monitor.accepts(event),
        !is_ending(monitor),
    ensures
        is_ending(monitor.next(status, event)) <==> (event is StopRequested || (event matches
            EventView::Polled { app, enabled, .. } && !enabled && app is None)),
{
}

/// Once it is on its way out, the monitor ends after at most two more
/// commands and does not begin anything new.
pub proof fn ending_monitor_ends(monitor: MonitorView, status: MicStatusView, event: EventView)
    requires
        monitor.wf(),
        is_ending(monitor),
    ensures
        steps_left(monitor) <= 2,
        steps_left(monitor) == 0 <==> monitor.command() is Exit,
        monitor.accepts(event) ==> is_ending(monitor.next(status, event)) && steps_left(
            monitor.next(status, event),
        ) < steps_left(monitor),
{
}

/// A capture is restarted by a poll exactly when the last audio SDU is more
/// than the stall timeout ago, so a capture that was marked when it began is
/// left alone for that long.
pub proof fn capture_is_restarted_exactly_when_stalled(
    monitor: MonitorView,
    status: MicStatusView,
    app: Seq<char>,
    t: nat,
    now: nat,
)
    requires
        monitor.phase is Polling,
        monitor.capture,
        t <= now,
    ensures
        monitor.next(
            status.marked(t),
            EventView::Polled { app: Some(app), enabled: true, now },
        ).command() is StopCapture <==> now - t > crate::audio::monitor::STALL_TIMEOUT,
        monitor.next(
            MicStatusView { last_sdu: None, ..status },
            EventView::Polled { app: Some(app), enabled: true, now },
        ).command() is Wait,
{
}

/// The monitor remembers that it turned conversation detection off for exactly
/// as long as it is off, and what it remembers is that it was on.
pub proof fn override_is_remembered(run: Seq<Step>)
    requires
        is_run(run),
    ensures
        conversation_is_overridden(run) == (after(run).saved is Some),
        after(run).saved matches Some(previous) ==> previous,
    decreases run.len(),
{
    runs_are_well_formed(run);
    if run.len() > 0 {
        runs_are_well_formed(run.drop_last());
        override_is_remembered(run.drop_last());
    }
}

/// Conversation detection is turned off only after it was found on, and only
/// for a capture that is live.
pub proof fn conversation_is_paused_only_if_it_was_on(
    monitor: MonitorView,
    status: MicStatusView,
    event: EventView,
)
    requires
        monitor.wf(),
        monitor.accepts(event),
        monitor.next(status, event).command() == Command::SetConversation(false),
    ensures
        event == EventView::ConversationEnabled(true),
        monitor.next(status, event).capture,
{
}

/// Conversation detection is overridden for captures: while the monitor waits,
/// it is overridden only if the last poll found the microphone enabled and an
/// app recording, and then for a live capture or for a stalled one that is
/// still to be started again.
pub proof fn override_goes_with_a_capture(run: Seq<Step>)
    requires
        is_run(run),
    ensures
        conversation_is_overridden(run) ==> after(run).capture || after(run).phase
            is RestartStarting || restart_is_owed(run),
        conversation_is_overridden(run) && !(after(run).phase is Stopping) ==> wanted(run),
    decreases run.len(),
{
    override_is_remembered(run);
    runs_are_well_formed(run);
    capture_runs_only_while_wanted(run);
    if run.len() > 0 {
        override_goes_with_a_capture(run.drop_last());
        override_is_remembered(run.drop_last());
        runs_are_well_formed(run.drop_last());
    }
}

/// When the monitor ends, conversation detection is as it was found: whatever
/// was turned off for a capture was turned on again.
pub proof fn conversation_is_restored_at_the_end(run: Seq<Step>)
    requires
        is_run(run),
        after(run).command() is Exit,
    ensures
        !conversation_is_overridden(run),
{
    override_is_remembered(run);
    runs_are_well_formed(run);
}

/// Whether the monitor gave the command to set conversation detection to `on`
/// in the course of a run.
pub open spec fn conversation_was_set(run: Seq<Step>, on: bool) -> bool
    decreases run.len(),
{
    run.len() > 0 && (after(run).command() == Command::SetConversation(on) || conversation_was_set(
        run.drop_last(),
        on,
    ))
}

/// A monitor that never turned conversation detection off never turns it on
/// either.
pub proof fn conversation_is_left_alone_unless_paused(run: Seq<Step>)
    requires
        is_run(run),
    ensures
        conversation_was_set(run, true) ==> conversation_was_set(run, false),
        conversation_is_overridden(run) ==> conversation_was_set(run, false),
    decreases run.len(),
{
    if run.len() > 0 {
        conversation_is_left_alone_unless_paused(run.drop_last());
        override_is_remembered(run.drop_last());
        runs_are_well_formed(run.drop_last());
    }
}

/// Without a capture to stop, what was overridden is put back as soon as the
/// monitor is to stop or a poll finds no capture wanted.
pub proof fn override_without_capture_is_undone(
    monitor: MonitorView,
    status: MicStatusView,
    event: EventView,
)
    requires
        monitor.wf(),
        monitor.accepts(event),
        !monitor.capture,
        event is StopRequested || (event matches EventView::Polled { app, enabled, .. } && !(enabled
            && app is Some)),
    ensures
        monitor.saved matches Some(previous) ==> monitor.next(status, event).command()
            == Command::SetConversation(previous),
{
}

/// A capture that is stopped for good is followed by putting conversation
/// detection back, if it was overridden.
pub proof fn stopping_restores_conversation(monitor: MonitorView, status: MicStatusView)
    requires
        monitor.wf(),
        monitor.phase is Stopping,
    ensures
        monitor.saved matches Some(previous) ==> {
            &&& monitor.next(status, EventView::CaptureStopped).command()
                == Command::SetConversation(previous)
            &&& monitor.next(status, EventView::CaptureStopped).saved is None
        },
{
}

/// The source is polled every 400 milliseconds, and a stream without SDUs for
/// two seconds has stalled.
pub proof fn monitor_timing()
    ensures
        crate::audio::monitor::POLL_INTERVAL_MS == 400,
        crate::audio::monitor::STALL_TIMEOUT == 2_000_000_000,
{
}

/// The monitor takes exactly the answers to its command, and none once it has
/// ended. It begins by waiting, without a capture and with nothing overridden.
pub proof fn only_the_answer_to_a_command_is_taken(monitor: MonitorView, event: EventView)
    ensures
        monitor.accepts(event) <==> {
            ||| monitor.command() is Wait && (event is StopRequested || event is Tick)
            ||| monitor.command() is Poll && event is Polled
            ||| monitor.command() is StartCapture && event is CaptureStarted
            ||| monitor.command() is StopCapture && event is CaptureStopped
            ||| monitor.command() is LoadPauseSetting && event is PauseSetting
            ||| monitor.command() is QueryConversation && event is ConversationEnabled
            ||| monitor.command() is SetConversation && event is ConversationSet
        },
        MonitorView::initial().command() is Wait,
        !MonitorView::initial().capture,
        MonitorView::initial().saved is None,
{
}

/// In each phase the loop is told to do what the phase is about.
pub proof fn command_fits_the_phase(monitor: MonitorView)
    ensures
        monitor.command() is Wait <==> monitor.phase is Waiting,
        monitor.command() is Poll <==> monitor.phase is Polling,
        monitor.command() is StartCapture <==> monitor.phase is Starting || monitor.phase
            is RestartStarting,
        monitor.command() is StopCapture <==> monitor.phase is RestartStopping || monitor.phase
            is Stopping,
        monitor.command() is LoadPauseSetting <==> monitor.phase is PauseLookup,
        monitor.command() is QueryConversation <==> monitor.phase is ConversationLookup,
        monitor.phase is Pausing ==> monitor.command() == Command::SetConversation(false),
        monitor.phase matches PhaseView::Restoring { previous, .. } ==> monitor.command()
            == Command::SetConversation(previous),
        monitor.command() is SetConversation <==> monitor.phase is Pausing || monitor.phase
            is Restoring,
        monitor.command() is Exit <==> monitor.phase is Exited,
{
}

/// A wait that ends without a request to stop is followed by a poll, and
/// nothing changes.
pub proof fn wait_is_followed_by_a_poll(monitor: MonitorView, status: MicStatusView)
    requires
        monitor.command() is Wait,
    ensures
        monitor.next(status, EventView::Tick).command() is Poll,
        monitor.next(status, EventView::Tick).capture == monitor.capture,
        monitor.next(status, EventView::Tick).saved == monitor.saved,
        monitor.next_status(status, EventView::Tick) == status,
{
}

/// Whenever a poll finds the microphone enabled and an app recording while no
/// capture is live, a capture is started for that app, whatever is shown and
/// whatever time it is. Nothing else changes.
pub proof fn recorder_gets_a_capture(
    monitor: MonitorView,
    status: MicStatusView,
    app: Seq<char>,
    now: nat,
)
    requires
        monitor.command() is Poll,
        !monitor.capture,
    ensures
        ({
            let event = EventView::Polled { app: Some(app), enabled: true, now };
            let next = monitor.next(status, event);
            &&& monitor.accepts(event)
            &&& next.command() is StartCapture
            &&& next.phase == PhaseView::Starting { app }
            &&& !next.capture
            &&& next.saved == monitor.saved
            &&& monitor.next_status(status, event) == status
        }),
{
}

/// A live capture that is still wanted goes on, or is stopped to be started
/// again if its last SDU came more than two seconds ago. Either way the app that
/// records now is shown, and neither the level nor the time of the last SDU
/// changes.
pub proof fn wanted_capture_goes_on_unless_stalled(
    monitor: MonitorView,
    status: MicStatusView,
    app: Seq<char>,
    now: nat,
)
    requires
        monitor.command() is Poll,
        monitor.capture,
    ensures
        ({
            let event = EventView::Polled { app: Some(app), enabled: true, now };
            let next = monitor.next(status, event);
            let shown = monitor.next_status(status, event);
            let stalled = status.last_sdu matches Some(t) && now > t + 2_000_000_000;
            &&& stalled ==> next.command() is StopCapture && next.phase is RestartStopping
            &&& !stalled ==> next.command() is Wait
            &&& next.capture
            &&& next.saved == monitor.saved
            &&& shown.app == Some(app)
            &&& shown.active
            &&& shown.level == status.level
            &&& shown.last_sdu == status.last_sdu
        }),
{
}

/// A poll that finds the microphone disabled or no app recording has a live
/// capture stopped for good. Without one, conversation detection is put back if
/// it was overridden, and otherwise the monitor waits on, or ends if the
/// microphone is disabled and nothing records. Nothing changes in what is shown
/// but at the end.
pub proof fn unwanted_poll_winds_down(
    monitor: MonitorView,
    status: MicStatusView,
    app: Option<Seq<char>>,
    enabled: bool,
    now: nat,
)
    requires
        monitor.command() is Poll,
        !enabled || app is None,
    ensures
        ({
            let event = EventView::Polled { app, enabled, now };
            let next = monitor.next(status, event);
            let shown = monitor.next_status(status, event);
            let last = !enabled && app is None;
            &&& monitor.capture ==> {
                &&& next.command() is StopCapture
                &&& next.phase == PhaseView::Stopping { last }
                &&& next.capture
                &&& next.saved == monitor.saved
                &&& shown == status
            }
            &&& !monitor.capture ==> !next.capture && next.saved is None
            &&& !monitor.capture && monitor.saved is Some ==> {
                &&& next.command() == Command::SetConversation(monitor.saved->0)
                &&& next.phase == PhaseView::Restoring {
                    previous: monitor.saved->0,
                    last,
                    stopped: false,
                }
                &&& shown == status
            }
            &&& !monitor.capture && monitor.saved is None && !last ==> next.command() is Wait
                && shown == status
            &&& !monitor.capture && monitor.saved is None && last ==> next.command() is Exit
                && shown == (MicStatusView { level: 0, active: false, app: None, last_sdu: None })
        }),
{
}

/// On the request to stop, a live capture is stopped for good. Without one,
/// conversation detection is put back if it was overridden, and otherwise the
/// monitor ends at once and leaves nothing to be seen.
pub proof fn stop_request_winds_down(monitor: MonitorView, status: MicStatusView)
    requires
        monitor.command() is Wait,
    ensures
        ({
            let next = monitor.next(status, EventView::StopRequested);
            let shown = monitor.next_status(status, EventView::StopRequested);
            &&& monitor.capture ==> {
                &&& next.command() is StopCapture
                &&& next.phase == PhaseView::Stopping { last: true }
                &&& next.capture
                &&& next.saved == monitor.saved
                &&& shown == status
            }
            &&& !monitor.capture ==> !next.capture && next.saved is None
            &&& !monitor.capture && monitor.saved is Some ==> {
                &&& next.command() == Command::SetConversation(monitor.saved->0)
                &&& next.phase == PhaseView::Restoring {
                    previous: monitor.saved->0,
                    last: true,
                    stopped: false,
                }
                &&& shown == status
            }
            &&& !monitor.capture && monitor.saved is None ==> next.command() is Exit && shown == (
            MicStatusView { level: 0, active: false, app: None, last_sdu: None })
        }),
{
}

/// A capture that was started for an app is live and shown for that app, and
/// the pause setting is looked up next. If it could not be started, the monitor
/// waits for the next poll and nothing is shown of the attempt.
pub proof fn started_capture_is_live_and_shown(
    monitor: MonitorView,
    status: MicStatusView,
    app: Seq<char>,
    ok: bool,
)
    requires
        monitor.phase == (PhaseView::Starting { app }),
    ensures
        ({
            let next = monitor.next(status, EventView::CaptureStarted(ok));
            let shown = monitor.next_status(status, EventView::CaptureStarted(ok));
            &&& next.capture == ok
            &&& next.saved == monitor.saved
            &&& ok ==> next.command() is LoadPauseSetting && shown == (MicStatusView {
                app: Some(app),
                active: true,
                ..status
            })
            &&& !ok ==> next.command() is Wait && shown == status
        }),
{
}

/// A stalled capture that was stopped is started again at once, with what is
/// shown and overridden left as it is. If that succeeds, it is live again and
/// the monitor waits. If not, nothing is shown any more, and the monitor waits
/// for the next poll, with conversation detection still to be put back.
pub proof fn stalled_capture_is_started_again(
    monitor: MonitorView,
    status: MicStatusView,
    later: MicStatusView,
    ok: bool,
)
    requires
        monitor.phase is RestartStopping,
    ensures
        ({
            let stopped = monitor.next(status, EventView::CaptureStopped);
            let next = stopped.next(later, EventView::CaptureStarted(ok));
            let shown = stopped.next_status(later, EventView::CaptureStarted(ok));
            &&& stopped.command() is StartCapture
            &&& stopped.phase is RestartStarting
            &&& !stopped.capture
            &&& stopped.saved == monitor.saved
            &&& monitor.next_status(status, EventView::CaptureStopped) == status
            &&& next.command() is Wait
            &&& next.capture == ok
            &&& next.saved == monitor.saved
            &&& ok ==> shown == later
            &&& !ok ==> shown == (MicStatusView {
                level: 0,
                active: false,
                app: None,
                last_sdu: None,
            })
        }),
{
}

/// Once a capture was stopped for good there is none. If conversation detection
/// was overridden, it is put back before anything else, and only then what is
/// shown is reset; otherwise that is reset at once. The monitor ends if it was to
/// end, and otherwise waits.
pub proof fn stopped_capture_leaves_nothing_behind(
    monitor: MonitorView,
    status: MicStatusView,
    later: MicStatusView,
    last: bool,
)
    requires
        monitor.phase == (PhaseView::Stopping { last }),
        monitor.capture,
    ensures
        ({
            let nothing = MicStatusView { level: 0, active: false, app: None, last_sdu: None };
            let stopped = monitor.next(status, EventView::CaptureStopped);
            let shown = monitor.next_status(status, EventView::CaptureStopped);
            let restored = stopped.next(later, EventView::ConversationSet);
            &&& !stopped.capture
            &&& stopped.saved is None
            &&& monitor.saved is Some ==> {
                &&& stopped.command() == Command::SetConversation(monitor.saved->0)
                &&& shown == status
                &&& stopped.next_status(later, EventView::ConversationSet) == nothing
                &&& !restored.capture
                &&& restored.saved is None
                &&& last ==> restored.command() is Exit
                &&& !last ==> restored.command() is Wait
            }
            &&& monitor.saved is None ==> {
                &&& shown == nothing
                &&& last ==> stopped.command() is Exit
                &&& !last ==> stopped.command() is Wait
            }
        }),
{
}

/// Conversation detection is paused for a new capture exactly if the setting
/// says so and it is on: then it is turned off, and that it was on is
/// remembered. The capture stays live and what is shown does not change.
pub proof fn conversation_is_paused_if_set_and_on(
    monitor: MonitorView,
    status: MicStatusView,
    pause: bool,
    on: bool,
)
    requires
        monitor.command() is LoadPauseSetting,
    ensures
        ({
            let asked = monitor.next(status, EventView::PauseSetting(pause));
            let told = asked.next(status, EventView::ConversationEnabled(on));
            let paused = told.next(status, EventView::ConversationSet);
            &&& asked.capture == monitor.capture
            &&& asked.saved == monitor.saved
            &&& monitor.next_status(status, EventView::PauseSetting(pause)) == status
            &&& !pause ==> asked.command() is Wait
            &&& pause ==> {
                &&& asked.command() is QueryConversation
                &&& told.capture == monitor.capture
                &&& asked.next_status(status, EventView::ConversationEnabled(on)) == status
                &&& !on ==> told.command() is Wait && told.saved == monitor.saved
                &&& on ==> {
                    &&& told.command() == Command::SetConversation(false)
                    &&& told.saved == Some(true)
                    &&& told.next_status(status, EventView::ConversationSet) == status
                    &&& paused.command() is Wait
                    &&& paused.saved == Some(true)
                    &&& paused.capture == monitor.capture
                }
            }
        }),
{
}

/// Once conversation detection is put back, the monitor ends if it was to end,
/// and otherwise waits. What is shown is reset if a capture was stopped before
/// or the monitor ends, and is left alone otherwise.
pub proof fn restored_monitor_ends_or_waits(
    monitor: MonitorView,
    status: MicStatusView,
    previous: bool,
    last: bool,
    stopped: bool,
)
    requires
        monitor.phase == (PhaseView::Restoring { previous, last, stopped }),
    ensures
        ({
            let next = monitor.next(status, EventView::ConversationSet);
            let shown = monitor.next_status(status, EventView::ConversationSet);
            &&& next.capture == monitor.capture
            &&& next.saved == monitor.saved
            &&& last ==> next.command() is Exit
            &&& !last ==> next.command() is Wait
            &&& last || stopped ==> shown == (MicStatusView {
                level: 0,
                active: false,
                app: None,
                last_sdu: None,
            })
            &&& !last && !stopped ==> shown == status
        }),
{
}

/// In every run in which the monitor waits without a live capture, an app that
/// the next poll finds recording, with the microphone enabled, gets a capture,
/// and once that is started it is live.
pub proof fn every_recorder_gets_a_capture(
    run: Seq<Step>,
    tick: MicStatusView,
    poll: MicStatusView,
    start: MicStatusView,
    app: Seq<char>,
    now: nat,
)
    requires
        is_run(run),
        after(run).command() is Wait,
        !capture_is_live(run),
    ensures
        ({
            let ticked = run.push(Step { status: tick, event: EventView::Tick });
            let polled = ticked.push(
                Step {
                    status: poll,
                    event: EventView::Polled { app: Some(app), enabled: true, now },
                },
            );
            let started = polled.push(
                Step { status: start, event: EventView::CaptureStarted(true) },
            );
            &&& is_run(started)
            &&& after(ticked).command() is Poll
            &&& after(polled).command() is StartCapture
            &&& after(started).capture
            &&& capture_is_live(started)
        }),
{
    captures_are_started_and_stopped_in_turn(run);
    let ticked = run.push(Step { status: tick, event: EventView::Tick });
    let polled = ticked.push(
        Step { status: poll, event: EventView::Polled { app: Some(app), enabled: true, now } },
    );
    let started = polled.push(Step { status: start, event: EventView::CaptureStarted(true) });
    assert(ticked.drop_last() =~= run);
    assert(is_run(ticked));
    assert(polled.drop_last() =~= ticked);
    assert(is_run(polled));
    assert(started.drop_last() =~= polled);
}

} // verus!

use earbuds::audio::monitor::{is_running, Command, Event, Monitor, STALL_TIMEOUT};
use earbuds::audio::status::MicStatus;

struct Rig {
    monitor: Monitor,
    status: MicStatus,
}

fn polled(app: Option<&str>, enabled: bool, now: u128) -> Event {
    Event::Polled { app: app.map(|a| a.to_string()), enabled, now }
}

impl Rig {
    fn new() -> Rig {
        Rig { monitor: Monitor::new(), status: MicStatus::new() }
    }

    fn step(&mut self, event: Event) -> Command {
        self.monitor.step(&mut self.status, event);
        self.monitor.command()
    }

    fn poll(&mut self, app: Option<&str>, enabled: bool, now: u128) -> Command {
        assert_eq!(self.monitor.command(), Command::Wait);
        assert_eq!(self.step(Event::Tick), Command::Poll);
        self.step(polled(app, enabled, now))
    }

    /// A rig with a live capture, with conversation detection paused or not.
    fn capturing(paused: bool) -> Rig {
        let mut rig = Rig::new();
        assert_eq!(rig.poll(Some("recorder"), true, 0), Command::StartCapture);
        rig.status.mark_sdu(0);
        assert_eq!(rig.step(Event::CaptureStarted(true)), Command::LoadPauseSetting);
        if paused {
            assert_eq!(rig.step(Event::PauseSetting(true)), Command::QueryConversation);
            assert_eq!(
                rig.step(Event::ConversationEnabled(true)),
                Command::SetConversation(false)
            );
            assert_eq!(rig.step(Event::ConversationSet), Command::Wait);
        } else {
            assert_eq!(rig.step(Event::PauseSetting(false)), Command::Wait);
        }
        assert!(rig.monitor.capturing());
        rig
    }
}

#[test]
fn idle_monitor_waits() {
    let mut rig = Rig::new();
    assert_eq!(rig.monitor.command(), Command::Wait);
    assert_eq!(rig.poll(None, true, 0), Command::Wait);
    assert_eq!(rig.poll(Some("recorder"), false, 0), Command::Wait);
    assert!(!rig.monitor.capturing());
}

#[test]
fn recorder_starts_a_capture() {
    let rig = Rig::capturing(false);
    assert!(rig.status.active());
    assert_eq!(rig.status.app(), Some("recorder".to_string()));
}

#[test]
fn failed_start_is_tried_again() {
    let mut rig = Rig::new();
    assert_eq!(rig.poll(Some("recorder"), true, 0), Command::StartCapture);
    assert_eq!(rig.step(Event::CaptureStarted(false)), Command::Wait);
    assert!(!rig.status.active());
    assert_eq!(rig.poll(Some("recorder"), true, 1), Command::StartCapture);
}

#[test]
fn conversation_that_was_off_is_left_alone() {
    let mut rig = Rig::new();
    rig.poll(Some("recorder"), true, 0);
    rig.step(Event::CaptureStarted(true));
    assert_eq!(rig.step(Event::PauseSetting(true)), Command::QueryConversation);
    assert_eq!(rig.step(Event::ConversationEnabled(false)), Command::Wait);
    assert_eq!(rig.poll(None, true, 1), Command::StopCapture);
    assert_eq!(rig.step(Event::CaptureStopped), Command::Wait);
}

#[test]
fn capture_ends_with_the_recorder() {
    let mut rig = Rig::capturing(true);
    assert_eq!(rig.poll(None, true, 1), Command::StopCapture);
    assert_eq!(rig.step(Event::CaptureStopped), Command::SetConversation(true));
    assert!(!rig.monitor.capturing());
    assert_eq!(rig.step(Event::ConversationSet), Command::Wait);
    assert!(!rig.status.active());
    assert_eq!(rig.status.since_last_sdu(5), None);
}

#[test]
fn disabling_stops_the_capture_and_keeps_the_source() {
    let mut rig = Rig::capturing(false);
    assert_eq!(rig.poll(Some("recorder"), false, 1), Command::StopCapture);
    assert_eq!(rig.step(Event::CaptureStopped), Command::Wait);
    assert!(!rig.status.active());
    assert_eq!(rig.poll(None, false, 2), Command::Exit);
}

#[test]
fn disabling_without_recorder_unloads() {
    let mut rig = Rig::capturing(true);
    assert_eq!(rig.poll(None, false, 1), Command::StopCapture);
    assert_eq!(rig.step(Event::CaptureStopped), Command::SetConversation(true));
    assert_eq!(rig.step(Event::ConversationSet), Command::Exit);
    assert!(!rig.status.active());
}

#[test]
fn stop_request_tears_the_capture_down() {
    let mut rig = Rig::capturing(true);
    assert_eq!(rig.step(Event::StopRequested), Command::StopCapture);
    assert_eq!(rig.step(Event::CaptureStopped), Command::SetConversation(true));
    assert_eq!(rig.step(Event::ConversationSet), Command::Exit);
    assert!(!rig.monitor.capturing());

    let mut idle = Rig::new();
    idle.status.set_level(7);
    assert_eq!(idle.step(Event::StopRequested), Command::Exit);
    assert_eq!(idle.status.level(), 0);
}

#[test]
fn live_capture_follows_the_recorder() {
    let mut rig = Rig::capturing(false);
    assert_eq!(rig.poll(Some("other"), true, STALL_TIMEOUT), Command::Wait);
    assert_eq!(rig.status.app(), Some("other".to_string()));
}

#[test]
fn stalled_capture_is_restarted() {
    let mut rig = Rig::capturing(true);
    assert_eq!(rig.poll(Some("recorder"), true, STALL_TIMEOUT + 1), Command::StopCapture);
    assert_eq!(rig.step(Event::CaptureStopped), Command::StartCapture);
    assert!(rig.status.active());
    assert_eq!(rig.step(Event::CaptureStarted(true)), Command::Wait);
    assert!(rig.monitor.capturing());
    // The pause of conversation detection outlives the restart.
    assert_eq!(rig.poll(None, true, 0), Command::StopCapture);
    assert_eq!(rig.step(Event::CaptureStopped), Command::SetConversation(true));
}

#[test]
fn stall_is_counted_from_the_last_sdu() {
    let mut rig = Rig::capturing(false);
    rig.status.mark_sdu(1000);
    assert_eq!(rig.poll(Some("recorder"), true, 1000 + STALL_TIMEOUT), Command::Wait);
    assert_eq!(rig.poll(Some("recorder"), true, 1001 + STALL_TIMEOUT), Command::StopCapture);
}

#[test]
fn failed_restart_leaves_nothing_running() {
    let mut rig = Rig::capturing(true);
    rig.poll(Some("recorder"), true, STALL_TIMEOUT + 1);
    rig.step(Event::CaptureStopped);
    assert_eq!(rig.step(Event::CaptureStarted(false)), Command::Wait);
    assert!(!rig.monitor.capturing());
    assert!(!rig.status.active());
    assert_eq!(rig.status.since_last_sdu(9), None);
}

/// A rig whose capture was paused for, stalled and could not be started again.
fn failed_restart() -> Rig {
    let mut rig = Rig::capturing(true);
    rig.poll(Some("recorder"), true, STALL_TIMEOUT + 1);
    assert!(rig.monitor.restarting());
    rig.step(Event::CaptureStopped);
    assert!(rig.monitor.restarting());
    rig.step(Event::CaptureStarted(false));
    assert!(!rig.monitor.restarting());
    rig
}

#[test]
fn stop_after_a_failed_restart_restores_conversation() {
    let mut rig = failed_restart();
    assert_eq!(rig.step(Event::StopRequested), Command::SetConversation(true));
    assert_eq!(rig.step(Event::ConversationSet), Command::Exit);
    assert!(!rig.status.active());
}

#[test]
fn unwanted_poll_after_a_failed_restart_restores_conversation() {
    let mut rig = failed_restart();
    assert_eq!(rig.poll(None, true, 1), Command::SetConversation(true));
    assert_eq!(rig.step(Event::ConversationSet), Command::Wait);
    // It is put back once.
    assert_eq!(rig.poll(None, true, 2), Command::Wait);
    assert_eq!(rig.step(Event::StopRequested), Command::Exit);

    let mut rig = failed_restart();
    assert_eq!(rig.poll(None, false, 1), Command::SetConversation(true));
    assert_eq!(rig.step(Event::ConversationSet), Command::Exit);
}

#[test]
fn restoring_without_a_capture_leaves_the_status_alone() {
    let mut rig = failed_restart();
    rig.status.mark_sdu(5);
    rig.status.set_level(7);
    assert_eq!(rig.poll(None, true, 6), Command::SetConversation(true));
    assert_eq!(rig.step(Event::ConversationSet), Command::Wait);
    assert_eq!(rig.status.since_last_sdu(8), Some(3));
    assert_eq!(rig.status.level(), 7);

    let mut rig = failed_restart();
    rig.status.mark_sdu(5);
    assert_eq!(rig.poll(Some("recorder"), false, 6), Command::SetConversation(true));
    // An SDU that comes in the meantime is kept too.
    rig.status.mark_sdu(7);
    assert_eq!(rig.step(Event::ConversationSet), Command::Wait);
    assert_eq!(rig.status.since_last_sdu(9), Some(2));

    // The end resets it.
    let mut rig = failed_restart();
    rig.status.mark_sdu(5);
    rig.status.set_level(7);
    assert_eq!(rig.poll(None, false, 6), Command::SetConversation(true));
    assert_eq!(rig.step(Event::ConversationSet), Command::Exit);
    assert_eq!(rig.status.since_last_sdu(8), None);
    assert_eq!(rig.status.level(), 0);

    let mut rig = failed_restart();
    rig.status.mark_sdu(5);
    assert_eq!(rig.step(Event::StopRequested), Command::SetConversation(true));
    assert_eq!(rig.step(Event::ConversationSet), Command::Exit);
    assert_eq!(rig.status.since_last_sdu(8), None);
}

#[test]
fn conversation_is_not_touched_without_a_pause() {
    let mut rig = Rig::capturing(false);
    assert_eq!(rig.poll(None, true, 1), Command::StopCapture);
    assert_eq!(rig.step(Event::CaptureStopped), Command::Wait);
    assert_eq!(rig.status.app(), None);
    assert_eq!(rig.step(Event::StopRequested), Command::Exit);
}

#[test]
fn capture_after_a_failed_restart_still_restores_conversation() {
    let mut rig = failed_restart();
    assert_eq!(rig.poll(Some("recorder"), true, 3), Command::StartCapture);
    rig.step(Event::CaptureStarted(true));
    rig.step(Event::PauseSetting(true));
    assert_eq!(rig.step(Event::ConversationEnabled(false)), Command::Wait);
    assert_eq!(rig.step(Event::StopRequested), Command::StopCapture);
    assert_eq!(rig.step(Event::CaptureStopped), Command::SetConversation(true));
}

#[test]
fn monitor_runs_until_its_task_has_finished() {
    assert!(is_running(Some(false)));
    assert!(!is_running(Some(true)));
    assert!(!is_running(None));
}

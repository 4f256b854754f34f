use earbuds::audio::capture::{StartStep, StopStep};
use earbuds::audio::status::MicStatus;

fn start(outcomes: &[bool], status: &mut MicStatus) -> Vec<StartStep> {
    let mut steps = vec![StartStep::OpenDecoder];
    for (i, ok) in outcomes.iter().enumerate() {
        let step = steps[steps.len() - 1];
        steps.push(step.advance(status, *ok, i as u128));
    }
    steps
}

#[test]
fn capture_starts_step_by_step() {
    let mut status = MicStatus::new();
    let steps = start(&[true; 6], &mut status);
    assert_eq!(
        steps,
        vec![
            StartStep::OpenDecoder,
            StartStep::OpenOutput,
            StartStep::TakeChannel,
            StartStep::SpawnDecoder,
            StartStep::SendStart,
            StartStep::ScheduleReset,
            StartStep::Started,
        ]
    );
    // The grace period began when the channel was taken.
    assert_eq!(status.since_last_sdu(12), Some(10));
    assert!(!status.active());
}

#[test]
fn start_fails_without_decoder_or_output() {
    let mut status = MicStatus::new();
    assert_eq!(start(&[false], &mut status)[1], StartStep::Failed);
    assert_eq!(start(&[true, false], &mut status)[2], StartStep::Failed);
    assert_eq!(status.since_last_sdu(12), None);
}

#[test]
fn unsent_start_gives_the_channel_up() {
    let mut status = MicStatus::new();
    let steps = start(&[true, true, true, true, false, true], &mut status);
    assert_eq!(steps[5], StartStep::ClearChannel);
    assert_eq!(steps[6], StartStep::Failed);
}

#[test]
fn capture_stops_step_by_step() {
    let mut steps = vec![StopStep::SendStop];
    for i in 0..5 {
        let step: StopStep = steps[i];
        steps.push(step.advance());
    }
    assert_eq!(
        steps,
        vec![
            StopStep::SendStop,
            StopStep::ClearChannel,
            StopStep::JoinDecoder,
            StopStep::ResetTransport,
            StopStep::Stopped,
            StopStep::Stopped,
        ]
    );
}

use earbuds::audio::session::{DecodeSession, SessionEvent, SessionStep};

fn sdu(aus: &[&[u8]]) -> Vec<u8> {
    let mut bytes = vec![0u8; 22];
    for au in aus {
        bytes.extend_from_slice(&[0, 0, 0, 0, au.len() as u8]);
        bytes.extend_from_slice(au);
    }
    bytes
}

fn receive(session: &mut DecodeSession, aus: &[&[u8]]) -> SessionStep {
    assert_eq!(session.step(), SessionStep::Receive);
    session.advance(SessionEvent::Received(sdu(aus)))
}

fn decoded(samples: &[i16]) -> SessionEvent {
    SessionEvent::Decoded(Some(samples.to_vec()))
}

#[test]
fn sdu_is_decoded_written_and_measured() {
    let mut session = DecodeSession::new();
    assert_eq!(receive(&mut session, &[&[1, 2], &[3]]), SessionStep::Decode(0));
    assert_eq!(session.au(0), &[1, 2]);
    assert_eq!(session.advance(decoded(&[7, 8])), SessionStep::Decode(1));
    assert_eq!(session.au(1), &[3]);
    assert_eq!(session.advance(decoded(&[9])), SessionStep::Write);
    assert_eq!(session.pcm(), &[7, 8, 9]);
    let peak = 0.5f32.to_bits();
    let step = session.advance(SessionEvent::Written(Some(peak)));
    assert_eq!(step, SessionStep::SetLevel(peak));
    assert_eq!(session.advance(SessionEvent::LevelSet), SessionStep::Receive);
    assert_eq!(session.step(), SessionStep::Receive);
}

#[test]
fn sdu_is_taken_apart_and_old_samples_are_dropped() {
    let mut session = DecodeSession::new();
    assert!(session.pcm().is_empty());
    receive(&mut session, &[&[1]]);
    session.advance(decoded(&[1]));
    session.advance(SessionEvent::Written(Some(0)));
    session.advance(SessionEvent::LevelSet);
    assert_eq!(session.pcm(), &[1]);
    assert_eq!(receive(&mut session, &[&[4, 5], &[6]]), SessionStep::Decode(0));
    assert!(session.pcm().is_empty());
    assert_eq!((session.au(0), session.au(1)), (&[4u8, 5][..], &[6u8][..]));
}

#[test]
fn lost_units_become_silence_in_their_place() {
    let mut session = DecodeSession::new();
    receive(&mut session, &[&[1], &[2], &[3]]);
    session.advance(decoded(&[7, 8]));
    session.advance(SessionEvent::Decoded(None));
    assert_eq!(session.advance(decoded(&[9])), SessionStep::Write);
    assert_eq!((session.frames(), session.errors()), (2, 1));
    let mut expected = vec![7i16, 8];
    expected.extend_from_slice(&[0; 480]);
    expected.push(9);
    assert_eq!(session.pcm(), &expected[..]);
}

#[test]
fn lost_sdu_is_written_as_silence() {
    let mut session = DecodeSession::new();
    receive(&mut session, &[&[1]]);
    assert_eq!(session.advance(SessionEvent::Decoded(None)), SessionStep::Write);
    assert_eq!(session.pcm(), &[0i16; 480][..]);
    assert_eq!((session.frames(), session.errors()), (0, 1));
}

#[test]
fn sdu_without_audio_is_not_written() {
    let mut session = DecodeSession::new();
    assert_eq!(receive(&mut session, &[]), SessionStep::SetLevel(0.0f32.to_bits()));
    assert_eq!(session.advance(SessionEvent::LevelSet), SessionStep::Receive);
    // Bytes that are no SDU have no AUs either.
    let step = session.advance(SessionEvent::Received(vec![1, 2, 3]));
    assert_eq!(step, SessionStep::SetLevel(0));
    session.advance(SessionEvent::LevelSet);
    receive(&mut session, &[&[1]]);
    assert_eq!(session.advance(decoded(&[])), SessionStep::SetLevel(0));
}

#[test]
fn failed_write_ends_the_session() {
    let mut session = DecodeSession::new();
    receive(&mut session, &[&[1]]);
    assert_eq!(session.advance(decoded(&[1])), SessionStep::Write);
    assert_eq!(session.advance(SessionEvent::Written(None)), SessionStep::ClearLevel);
    assert_eq!(session.advance(SessionEvent::LevelCleared), SessionStep::Ended);
    assert_eq!((session.frames(), session.errors()), (1, 0));
}

#[test]
fn closed_channel_ends_the_session() {
    let mut session = DecodeSession::new();
    assert_eq!(session.advance(SessionEvent::Closed), SessionStep::ClearLevel);
    assert_eq!(session.advance(SessionEvent::LevelCleared), SessionStep::Ended);
    assert_eq!(session.step(), SessionStep::Ended);
}

#[test]
fn each_sdu_of_a_run_is_written_once() {
    let sizes = [2usize, 0, 1, 3, 0];
    let mut session = DecodeSession::new();
    let mut sent = 0usize;
    let mut writes: Vec<usize> = vec![];
    let mut levels = 0usize;
    let mut step = session.step();
    while step != SessionStep::Ended {
        let event = match step {
            SessionStep::Receive if sent == sizes.len() => SessionEvent::Closed,
            SessionStep::Receive => {
                let au: &[u8] = &[1];
                sent += 1;
                SessionEvent::Received(sdu(&vec![au; sizes[sent - 1]]))
            }
            SessionStep::Decode(index) => {
                assert_eq!(session.au(index), &[1]);
                decoded(&[5])
            }
            SessionStep::Write => {
                assert_eq!(session.pcm().len(), sizes[sent - 1]);
                writes.push(sent - 1);
                SessionEvent::Written(Some(1))
            }
            SessionStep::SetLevel(peak) => {
                assert_eq!(peak, if sizes[sent - 1] > 0 { 1 } else { 0 });
                levels += 1;
                SessionEvent::LevelSet
            }
            SessionStep::ClearLevel => SessionEvent::LevelCleared,
            SessionStep::Ended => unreachable!(),
        };
        step = session.advance(event);
    }
    assert_eq!(writes, vec![0, 2, 3]);
    assert_eq!(levels, 5);
    assert_eq!((session.frames(), session.errors()), (6, 0));
}

#[test]
fn numbers_are_reported_every_400_frames() {
    let mut session = DecodeSession::new();
    assert!(!session.report_due());
    for frames in 1..=800u64 {
        receive(&mut session, &[&[1]]);
        session.advance(decoded(&[0; 480]));
        assert_eq!(session.report_due(), frames == 400 || frames == 800);
        session.advance(SessionEvent::Written(Some(0)));
        session.advance(SessionEvent::LevelSet);
    }
}

//! The decode thread's loop, one step at a time: it receives SDUs, has their
//! AUs decoded, writes what they give once and sets the level, until the channel
//! is closed or a write fails.
use crate::audio::eld::{ELD_CHANNELS, ELD_FRAME_SAMPLES};
use crate::bluetooth::aacp_audio::demux_type58;
use vstd::prelude::*;
use vstd::slice::slice_to_vec;

verus! {

/// After how many decoded frames the numbers are reported again.
pub const REPORT_INTERVAL: u64 = 400;

/// The bits of the level 0.0.
pub const SILENCE: u32 = 0;

/// What is to be done next.
#[derive(Clone, Copy, PartialEq, Eq, Structural, Debug)]
pub enum SessionStep {
    /// Wait for the next SDU.
    Receive,
    /// Decode the AU with this index.
    Decode(usize),
    /// Write the samples of the SDU to the output.
    Write,
    /// Let the level follow a peak, given as the bits of a float.
    SetLevel(u32),
    /// Set the level to 0.0.
    ClearLevel,
    Ended,
}

pub enum SessionStepView {
    Receive,
    Decode(nat),
    Write,
    SetLevel(u32),
    ClearLevel,
    Ended,
}

impl View for SessionStep {
    type V = SessionStepView;

    open spec fn view(&self) -> SessionStepView {
        match self {
            SessionStep::Receive => SessionStepView::Receive,
            SessionStep::Decode(index) => SessionStepView::Decode(*index as nat),
            SessionStep::Write => SessionStepView::Write,
            SessionStep::SetLevel(peak) => SessionStepView::SetLevel(*peak),
            SessionStep::ClearLevel => SessionStepView::ClearLevel,
            SessionStep::Ended => SessionStepView::Ended,
        }
    }
}

/// What came of a step.
#[derive(Debug)]
pub enum SessionEvent {
    Received(Vec<u8>),
    /// The channel is closed.
    Closed,
    /// The samples of the AU, or `None` if it could not be decoded.
    Decoded(Option<Vec<i16>>),
    /// The peak of what was written, or `None` if the write failed.
    Written(Option<u32>),
    LevelSet,
    LevelCleared,
}

#[verifier::ext_equal]
pub enum SessionEventView {
    Received(Seq<u8>),
    Closed,
    Decoded(Option<Seq<i16>>),
    Written(Option<u32>),
    LevelSet,
    LevelCleared,
}

/// The samples of an AU, if it was decoded.
pub open spec fn outcome_of(decoded: Option<Vec<i16>>) -> Option<Seq<i16>> {
    match decoded {
        Some(samples) => Some(samples@),
        None => None,
    }
}

impl View for SessionEvent {
    type V = SessionEventView;

    open spec fn view(&self) -> SessionEventView {
        match self {
            SessionEvent::Received(sdu) => SessionEventView::Received(sdu@),
            SessionEvent::Closed => SessionEventView::Closed,
            SessionEvent::Decoded(decoded) => SessionEventView::Decoded(outcome_of(*decoded)),
            SessionEvent::Written(peak) => SessionEventView::Written(*peak),
            SessionEvent::LevelSet => SessionEventView::LevelSet,
            SessionEvent::LevelCleared => SessionEventView::LevelCleared,
        }
    }
}

pub struct DecodeSession {
    frames: u64,
    errors: u64,
    pcm: Vec<i16>,
    aus: Vec<Vec<u8>>,
    step: SessionStep,
}

#[verifier::ext_equal]
pub struct DecodeSessionView {
    /// How many AUs were decoded.
    pub frames: nat,
    /// How many AUs were replaced by silence.
    pub errors: nat,
    /// The samples of the current SDU.
    pub pcm: Seq<i16>,
    /// The AUs of the current SDU.
    pub aus: Seq<Seq<u8>>,
    /// What is to be done next.
    pub step: SessionStepView,
}

impl View for DecodeSession {
    type V = DecodeSessionView;

    closed spec fn view(&self) -> DecodeSessionView {
        DecodeSessionView {
            frames: self.frames as nat,
            errors: self.errors as nat,
            pcm: self.pcm@,
            aus: Seq::new(self.aus@.len(), |i: int| self.aus@[i]@),
            step: self.step@,
        }
    }
}

/// The samples of one silent frame.
pub open spec fn silent_frame() -> Seq<i16> {
    Seq::new((ELD_FRAME_SAMPLES * ELD_CHANNELS) as nat, |i: int| 0i16)
}

/// The samples that one AU contributes: its own, or a silent frame.
pub open spec fn samples_of(outcome: Option<Seq<i16>>) -> Seq<i16> {
    match outcome {
        Some(samples) => samples,
        None => silent_frame(),
    }
}

impl DecodeSessionView {
    /// A session that has received nothing.
    pub open spec fn initial() -> Self {
        DecodeSessionView {
            frames: 0,
            errors: 0,
            pcm: Seq::empty(),
            aus: Seq::empty(),
            step: SessionStepView::Receive,
        }
    }

    pub open spec fn wf(self) -> bool {
        match self.step {
            SessionStepView::Decode(index) => index < self.aus.len(),
            SessionStepView::Write => self.pcm.len() > 0,
            _ => true,
        }
    }

    /// The session after an AU was decoded, or was not: then a silent frame
    /// takes its place.
    pub open spec fn recorded(self, outcome: Option<Seq<i16>>) -> Self {
        DecodeSessionView {
            frames: if outcome is Some { self.frames + 1 } else { self.frames },
            errors: if outcome is None { self.errors + 1 } else { self.errors },
            pcm: self.pcm + samples_of(outcome),
            ..self
        }
    }

    /// The step that follows the last AU of an SDU: there is something to
    /// write, or the level follows silence.
    pub open spec fn step_after_aus(self) -> SessionStepView {
        if self.pcm.len() > 0 {
            SessionStepView::Write
        } else {
            SessionStepView::SetLevel(SILENCE)
        }
    }

    /// Whether the event can come of the current step.
    pub open spec fn accepts(self, event: SessionEventView) -> bool {
        match self.step {
            SessionStepView::Receive => event is Received || event is Closed,
            SessionStepView::Decode(_) => event is Decoded,
            SessionStepView::Write => event is Written,
            SessionStepView::SetLevel(_) => event is LevelSet,
            SessionStepView::ClearLevel => event is LevelCleared,
            SessionStepView::Ended => false,
        }
    }

    /// Whether the numbers still fit after the event.
    pub open spec fn fits(self, event: SessionEventView) -> bool {
        match event {
            SessionEventView::Decoded(Some(_)) => self.frames < u64::MAX,
            SessionEventView::Decoded(None) => self.errors < u64::MAX && self.pcm.len()
                + silent_frame().len() <= usize::MAX,
            _ => true,
        }
    }

    /// The session after the event.
    pub open spec fn after(self, event: SessionEventView) -> Self {
        match (self.step, event) {
            (SessionStepView::Receive, SessionEventView::Received(sdu)) => {
                let aus = crate::bluetooth::aacp_audio::type58_aus(sdu);
                let begun = DecodeSessionView { pcm: Seq::empty(), aus, ..self };
                DecodeSessionView {
                    step: if aus.len() > 0 {
                        SessionStepView::Decode(0)
                    } else {
                        begun.step_after_aus()
                    },
                    ..begun
                }
            },
            (SessionStepView::Receive, SessionEventView::Closed) => DecodeSessionView {
                step: SessionStepView::ClearLevel,
                ..self
            },
            (SessionStepView::Decode(index), SessionEventView::Decoded(outcome)) => {
                let recorded = self.recorded(outcome);
                DecodeSessionView {
                    step: if index + 1 < self.aus.len() {
                        SessionStepView::Decode(index + 1)
                    } else {
                        recorded.step_after_aus()
                    },
                    ..recorded
                }
            },
            (SessionStepView::Write, SessionEventView::Written(Some(peak))) => DecodeSessionView {
                step: SessionStepView::SetLevel(peak),
                ..self
            },
            (SessionStepView::Write, SessionEventView::Written(None)) => DecodeSessionView {
                step: SessionStepView::ClearLevel,
                ..self
            },
            (SessionStepView::SetLevel(_), SessionEventView::LevelSet) => DecodeSessionView {
                step: SessionStepView::Receive,
                ..self
            },
            (SessionStepView::ClearLevel, SessionEventView::LevelCleared) => DecodeSessionView {
                step: SessionStepView::Ended,
                ..self
            },
            _ => self,
        }
    }

    /// What is to be done after the event.
    pub open spec fn next(self, event: SessionEventView) -> SessionStepView {
        self.after(event).step
    }
}

impl DecodeSession {
    pub fn new() -> (session: Self)
        ensures
            session@ == DecodeSessionView::initial(),
            session@.wf(),
            session@.frames == 0,
            session@.errors == 0,
            session@.pcm.len() == 0,
            session@.aus.len() == 0,
            session@.step is Receive,
    {
        let session = DecodeSession {
            frames: 0,
            errors: 0,
            pcm: Vec::with_capacity(4096),
            aus: Vec::new(),
            step: SessionStep::Receive,
        };
        assert(session@ =~= DecodeSessionView::initial());
        session
    }

    /// What is to be done next.
    pub fn step(&self) -> (step: SessionStep)
        ensures
            step@ == self@.step,
    {
        self.step
    }

    /// How many AUs were decoded.
    pub fn frames(&self) -> (frames: u64)
        ensures
            frames == self@.frames,
    {
        self.frames
    }

    /// How many AUs were replaced by silence.
    pub fn errors(&self) -> (errors: u64)
        ensures
            errors == self@.errors,
    {
        self.errors
    }

    /// The samples of the current SDU.
    pub fn pcm(&self) -> (pcm: &[i16])
        ensures
            pcm@ == self@.pcm,
    {
        self.pcm.as_slice()
    }

    /// An AU of the current SDU.
    pub fn au(&self, index: usize) -> (au: &[u8])
        requires
            index < self@.aus.len(),
        ensures
            au@ == self@.aus[index as int],
    {
        self.aus[index].as_slice()
    }

    /// Takes in what came of the current step and returns the next one.
    pub fn advance(&mut self, event: SessionEvent) -> (step: SessionStep)
        requires
            old(self)@.wf(),
            old(self)@.accepts(event@),
            old(self)@.fits(event@),
        ensures
            step@ == old(self)@.next(event@),
            final(self)@ == old(self)@.after(event@),
            final(self)@.wf(),
            event matches SessionEvent::Received(sdu) ==> {
                &&& final(self)@.pcm == Seq::<i16>::empty()
                &&& final(self)@.aus == crate::bluetooth::aacp_audio::type58_aus(sdu@)
                &&& final(self)@.frames == old(self)@.frames
                &&& final(self)@.errors == old(self)@.errors
                &&& step == (if final(self)@.aus.len() > 0 {
                    SessionStep::Decode(0)
                } else {
                    SessionStep::SetLevel(0)
                })
            },
            event matches SessionEvent::Decoded(Some(samples)) ==> {
                &&& final(self)@.pcm == old(self)@.pcm + samples@
                &&& final(self)@.frames == old(self)@.frames + 1
                &&& final(self)@.errors == old(self)@.errors
            },
            event matches SessionEvent::Decoded(None) ==> {
                &&& final(self)@.pcm == old(self)@.pcm + Seq::new(480, |i: int| 0i16)
                &&& final(self)@.frames == old(self)@.frames
                &&& final(self)@.errors == old(self)@.errors + 1
            },
            event is Decoded ==> {
                &&& old(self)@.step matches SessionStepView::Decode(index)
                &&& final(self)@.aus == old(self)@.aus
                &&& step == (if index + 1 < old(self)@.aus.len() {
                    SessionStep::Decode((index + 1) as usize)
                } else if final(self)@.pcm.len() > 0 {
                    SessionStep::Write
                } else {
                    SessionStep::SetLevel(0)
                })
            },
            event matches SessionEvent::Written(peak) ==> step == (match peak {
                Some(peak) => SessionStep::SetLevel(peak),
                None => SessionStep::ClearLevel,
            }),
            event is Closed ==> step == SessionStep::ClearLevel,
            event is LevelSet ==> step == SessionStep::Receive,
            event is LevelCleared ==> step == SessionStep::Ended,
            !(event is Received || event is Decoded) ==> {
                &&& final(self)@.pcm == old(self)@.pcm
                &&& final(self)@.aus == old(self)@.aus
                &&& final(self)@.frames == old(self)@.frames
                &&& final(self)@.errors == old(self)@.errors
            },
    {
        match event {
            SessionEvent::Received(sdu) => {
                self.begin_sdu(sdu.as_slice());
                self.step = if self.aus.len() > 0 {
                    SessionStep::Decode(0)
                } else {
                    self.step_after_aus()
                };
            },
            SessionEvent::Closed => {
                self.step = SessionStep::ClearLevel;
            },
            SessionEvent::Decoded(decoded) => {
                self.record(decoded);
                if let SessionStep::Decode(index) = self.step {
                    let aus: usize = self.aus.len();
                    self.step = if index + 1 < aus {
                        SessionStep::Decode(index + 1)
                    } else {
                        self.step_after_aus()
                    };
                }
            },
            SessionEvent::Written(peak) => {
                self.step = match peak {
                    Some(peak) => SessionStep::SetLevel(peak),
                    None => SessionStep::ClearLevel,
                };
            },
            SessionEvent::LevelSet => {
                self.step = SessionStep::Receive;
            },
            SessionEvent::LevelCleared => {
                self.step = SessionStep::Ended;
            },
        }
        assert(self@ =~= old(self)@.after(event@));
        self.step
    }

    /// Drops the samples of the SDU before and takes the next one apart.
    fn begin_sdu(&mut self, sdu: &[u8])
        ensures
            final(self)@ == (DecodeSessionView {
                pcm: Seq::empty(),
                aus: crate::bluetooth::aacp_audio::type58_aus(sdu@),
                ..old(self)@
            }),
    {
        self.pcm.clear();
        let mut slices: Vec<&[u8]> = Vec::new();
        demux_type58(sdu, &mut slices);
        let ghost found = crate::bluetooth::aacp_audio::type58_aus(sdu@);
        assert(crate::bluetooth::aacp_audio::slice_views(slices@) =~= found) by {
            assert(crate::bluetooth::aacp_audio::slice_views(Seq::empty()) + found =~= found);
        }
        let mut aus: Vec<Vec<u8>> = Vec::new();
        let mut i: usize = 0;
        while i < slices.len()
            invariant
                i <= slices@.len(),
                aus@.len() == i,
                forall|j: int| 0 <= j < i ==> (#[trigger] aus@[j])@ == slices@[j]@,
            decreases slices@.len() - i,
        {
            aus.push(slice_to_vec(slices[i]));
            i += 1;
        }
        self.aus = aus;
        assert(self@.aus =~= found) by {
            assert forall|j: int| 0 <= j < found.len() implies self@.aus[j] == found[j] by {
                assert(crate::bluetooth::aacp_audio::slice_views(slices@)[j] == slices@[j]@);
                assert(self.aus@[j]@ == slices@[j]@);
            }
        }
    }

    /// Counts one AU and adds its samples, or a silent frame in its place.
    fn record(&mut self, decoded: Option<Vec<i16>>)
        requires
            old(self)@.fits(SessionEventView::Decoded(outcome_of(decoded))),
        ensures
            final(self)@ == old(self)@.recorded(outcome_of(decoded)),
            final(self).step == old(self).step,
    {
        match decoded {
            Some(samples) => {
                let mut samples: Vec<i16> = samples;
                self.frames += 1;
                self.pcm.append(&mut samples);
            },
            None => {
                let ghost before = self.pcm@;
                self.errors += 1;
                let len: usize = self.pcm.len() + ELD_FRAME_SAMPLES * ELD_CHANNELS as usize;
                self.pcm.resize(len, 0);
                assert(self.pcm@ =~= before + silent_frame()) by {
                    assert(self.pcm@.subrange(0, before.len() as int) == before);
                    assert forall|i: int| 0 <= i < before.len() implies self.pcm@[i]
                        == before[i] by {
                        assert(self.pcm@[i] == self.pcm@.subrange(0, before.len() as int)[i]);
                    }
                }
            },
        }
        assert(self@ =~= old(self)@.recorded(outcome_of(decoded)));
    }

    /// The step that follows the last AU of an SDU.
    fn step_after_aus(&self) -> (step: SessionStep)
        ensures
            step@ == self@.step_after_aus(),
    {
        if self.pcm.is_empty() {
            SessionStep::SetLevel(SILENCE)
        } else {
            SessionStep::Write
        }
    }

    /// Whether the numbers are to be reported now.
    pub fn report_due(&self) -> (due: bool)
        ensures
            due == (self@.frames > 0 && self@.frames % REPORT_INTERVAL as nat == 0),
            due == (self@.frames > 0 && self@.frames % 400 == 0),
    {
        self.frames > 0 && self.frames % REPORT_INTERVAL == 0
    }
}

/// The session after the events of a run, from the start.
pub open spec fn session_after(run: Seq<SessionEventView>) -> DecodeSessionView
    decreases run.len(),
{
    if run.len() == 0 {
        DecodeSessionView::initial()
    } else {
        session_after(run.drop_last()).after(run.last())
    }
}

/// Whether each event of the run came of the step that was due.
pub open spec fn is_session_run(run: Seq<SessionEventView>) -> bool
    decreases run.len(),
{
    run.len() > 0 ==> {
        &&& is_session_run(run.drop_last())
        &&& session_after(run.drop_last()).accepts(run.last())
    }
}

/// How many AUs the run had decoded.
pub open spec fn decoded_in(run: Seq<SessionEventView>) -> nat
    decreases run.len(),
{
    if run.len() == 0 {
        0
    } else {
        let before = decoded_in(run.drop_last());
        if run.last() matches SessionEventView::Decoded(Some(_)) {
            before + 1
        } else {
            before
        }
    }
}

/// How many AUs of the run could not be decoded.
pub open spec fn lost_in(run: Seq<SessionEventView>) -> nat
    decreases run.len(),
{
    if run.len() == 0 {
        0
    } else {
        let before = lost_in(run.drop_last());
        if run.last() matches SessionEventView::Decoded(None) {
            before + 1
        } else {
            before
        }
    }
}

/// The AUs of the SDU that the run received last.
pub open spec fn aus_of(run: Seq<SessionEventView>) -> Seq<Seq<u8>>
    decreases run.len(),
{
    if run.len() == 0 {
        Seq::empty()
    } else {
        match run.last() {
            SessionEventView::Received(sdu) => crate::bluetooth::aacp_audio::type58_aus(sdu),
            _ => aus_of(run.drop_last()),
        }
    }
}

/// What came of decoding the AUs of the SDU that the run received last.
pub open spec fn outcomes_of(run: Seq<SessionEventView>) -> Seq<Option<Seq<i16>>>
    decreases run.len(),
{
    if run.len() == 0 {
        Seq::empty()
    } else {
        match run.last() {
            SessionEventView::Received(_) => Seq::empty(),
            SessionEventView::Decoded(outcome) => outcomes_of(run.drop_last()).push(outcome),
            _ => outcomes_of(run.drop_last()),
        }
    }
}

/// How often the run has written, with success or not, since it received an SDU.
pub open spec fn writes_of(run: Seq<SessionEventView>) -> nat
    decreases run.len(),
{
    if run.len() == 0 {
        0
    } else {
        match run.last() {
            SessionEventView::Received(_) => 0,
            SessionEventView::Written(_) => writes_of(run.drop_last()) + 1,
            _ => writes_of(run.drop_last()),
        }
    }
}

/// What several AUs contribute, one after the other.
pub open spec fn samples_of_all(outcomes: Seq<Option<Seq<i16>>>) -> Seq<i16>
    decreases outcomes.len(),
{
    if outcomes.len() == 0 {
        Seq::empty()
    } else {
        samples_of_all(outcomes.drop_last()) + samples_of(outcomes.last())
    }
}

/// Every AU of a run is counted once, as decoded or as lost. Those of the
/// current SDU are heard in their places, each with its own samples or as one
/// silent frame.
pub proof fn every_au_is_counted_and_heard(run: Seq<SessionEventView>)
    requires
        is_session_run(run),
    ensures
        session_after(run).frames == decoded_in(run),
        session_after(run).errors == lost_in(run),
        session_after(run).aus == aus_of(run),
        session_after(run).pcm == samples_of_all(outcomes_of(run)),
    decreases run.len(),
{
    if run.len() > 0 {
        every_au_is_counted_and_heard(run.drop_last());
        if let SessionEventView::Decoded(outcome) = run.last() {
            assert(outcomes_of(run).drop_last() =~= outcomes_of(run.drop_last()));
        }
    }
}

/// Each SDU is written exactly once if it has samples, and never otherwise: not
/// before all its AUs went through the decoder, and before the next SDU is
/// received or the session ends. The level then follows the peak of that write,
/// or silence if there was none.
pub proof fn each_sdu_is_written_once(run: Seq<SessionEventView>)
    requires
        is_session_run(run),
    ensures
        session_after(run).wf(),
        match session_after(run).step {
            SessionStepView::Decode(index) => {
                &&& outcomes_of(run).len() == index
                &&& index < aus_of(run).len()
                &&& writes_of(run) == 0
            },
            SessionStepView::Write => {
                &&& outcomes_of(run).len() == aus_of(run).len()
                &&& samples_of_all(outcomes_of(run)).len() > 0
                &&& writes_of(run) == 0
            },
            _ => {
                &&& outcomes_of(run).len() == aus_of(run).len()
                &&& writes_of(run) == if samples_of_all(outcomes_of(run)).len() > 0 {
                    1nat
                } else {
                    0nat
                }
            },
        },
        session_after(run).step matches SessionStepView::SetLevel(peak) ==> if samples_of_all(
            outcomes_of(run),
        ).len() > 0 {
            run.last() == SessionEventView::Written(Some(peak))
        } else {
            peak == SILENCE
        },
    decreases run.len(),
{
    every_au_is_counted_and_heard(run);
    if run.len() > 0 {
        every_au_is_counted_and_heard(run.drop_last());
        each_sdu_is_written_once(run.drop_last());
    }
}

/// Where a decoded AU gives at least one sample, as it does by
/// `output_grows_by_what_is_reported`, each SDU with AUs is written exactly
/// once, and one without AUs is not written.
pub proof fn sdu_with_aus_is_written_once(run: Seq<SessionEventView>)
    requires
        is_session_run(run),
        forall|i: int|
            0 <= i < outcomes_of(run).len() ==> (#[trigger] outcomes_of(run)[i] matches Some(
                samples,
            ) ==> samples.len() > 0),
        !(session_after(run).step is Decode),
        !(session_after(run).step is Write),
    ensures
        writes_of(run) == if aus_of(run).len() > 0 {
            1nat
        } else {
            0nat
        },
{
    each_sdu_is_written_once(run);
    if outcomes_of(run).len() > 0 {
        assert(samples_of(outcomes_of(run)[outcomes_of(run).len() - 1]).len() > 0);
    }
}

/// Whether the event ends the session: the channel is closed, or a write failed.
pub open spec fn ends_session(event: SessionEventView) -> bool {
    event is Closed || event == SessionEventView::Written(None)
}

/// A session ends exactly when the channel is closed or a write failed. Then the
/// level is set to 0.0 and nothing else is done: nothing is received, decoded or
/// written any more.
pub proof fn session_ends_only_when_it_should(run: Seq<SessionEventView>)
    requires
        is_session_run(run),
    ensures
        session_after(run).step is ClearLevel <==> run.len() > 0 && ends_session(run.last()),
        session_after(run).step is Ended <==> run.len() > 1 && ends_session(run[run.len() - 2])
            && run.last() is LevelCleared,
        forall|i: int|
            0 <= i < run.len() && ends_session(#[trigger] run[i]) ==> {
                ||| i == run.len() - 1
                ||| i == run.len() - 2 && run.last() is LevelCleared
            },
    decreases run.len(),
{
    if run.len() > 0 {
        let before = run.drop_last();
        session_ends_only_when_it_should(before);
        assert forall|i: int| 0 <= i < run.len() && ends_session(#[trigger] run[i]) implies {
            ||| i == run.len() - 1
            ||| i == run.len() - 2 && run.last() is LevelCleared
        } by {
            if i < before.len() {
                assert(before[i] == run[i]);
            }
        }
        if run.len() > 1 {
            assert(before.last() == run[run.len() - 2]);
        }
    }
}

/// A decoded AU adds all its samples, behind those that are there, however many
/// they are, and is counted as decoded.
pub proof fn decoded_au_is_heard_whole(session: DecodeSessionView, samples: Seq<i16>)
    requires
        session.step is Decode,
    ensures
        ({
            let event = SessionEventView::Decoded(Some(samples));
            let next = session.after(event);
            &&& session.accepts(event)
            &&& session.fits(event) <==> session.frames < u64::MAX
            &&& next.pcm == session.pcm + samples
            &&& next.frames == session.frames + 1
            &&& next.errors == session.errors
            &&& next.aus == session.aus
        }),
{
}

/// An AU that could not be decoded adds 480 zeros, behind the samples that are
/// there, and is counted as lost.
pub proof fn lost_au_is_heard_as_480_zeros(session: DecodeSessionView)
    requires
        session.step is Decode,
    ensures
        ({
            let event = SessionEventView::Decoded(None);
            let next = session.after(event);
            &&& session.accepts(event)
            &&& session.fits(event) <==> session.errors < u64::MAX && session.pcm.len() + 480
                <= usize::MAX
            &&& next.pcm.len() == session.pcm.len() + 480
            &&& next.pcm.take(session.pcm.len() as int) == session.pcm
            &&& forall|i: int|
                session.pcm.len() <= i < next.pcm.len() ==> #[trigger] next.pcm[i] == 0
            &&& next.frames == session.frames
            &&& next.errors == session.errors + 1
            &&& next.aus == session.aus
        }),
{
    let next = session.after(SessionEventView::Decoded(None));
    assert(next.pcm.take(session.pcm.len() as int) =~= session.pcm);
}

/// The AUs of an SDU are decoded one after the other, each once. After the last
/// one the samples are written, if there are any, and otherwise the level
/// follows silence.
pub proof fn aus_are_decoded_in_order(
    session: DecodeSessionView,
    index: nat,
    outcome: Option<Seq<i16>>,
)
    requires
        session.step == SessionStepView::Decode(index),
    ensures
        ({
            let next = session.after(SessionEventView::Decoded(outcome));
            &&& next.step == session.next(SessionEventView::Decoded(outcome))
            &&& index + 1 < session.aus.len() ==> next.step == SessionStepView::Decode(index + 1)
            &&& index + 1 >= session.aus.len() && next.pcm.len() > 0 ==> next.step is Write
            &&& index + 1 >= session.aus.len() && next.pcm.len() == 0 ==> next.step
                == SessionStepView::SetLevel(0)
        }),
{
}

/// With each SDU the session begins anew: nothing of the one before is heard
/// again. The first of its AUs is decoded next; if it has none, the level
/// follows silence. The numbers go on.
pub proof fn sdu_begins_anew(session: DecodeSessionView, sdu: Seq<u8>)
    requires
        session.step is Receive,
    ensures
        ({
            let event = SessionEventView::Received(sdu);
            let next = session.after(event);
            let aus = crate::bluetooth::aacp_audio::type58_aus(sdu);
            &&& session.accepts(event)
            &&& session.fits(event)
            &&& next.pcm == Seq::<i16>::empty()
            &&& next.aus == aus
            &&& aus.len() > 0 ==> next.step == SessionStepView::Decode(0)
            &&& aus.len() == 0 ==> next.step == SessionStepView::SetLevel(0)
            &&& next.frames == session.frames
            &&& next.errors == session.errors
        }),
{
}

/// What is neither an SDU nor an AU changes only what is done next: the level
/// follows the peak of what was written, a failed write and a closed channel lead
/// to the end, by way of the level 0.0, and once the level is set the next SDU is
/// received.
pub proof fn rest_only_leads_on(session: DecodeSessionView, event: SessionEventView)
    requires
        session.accepts(event),
        !(event is Received),
        !(event is Decoded),
    ensures
        ({
            let next = session.after(event);
            &&& session.fits(event)
            &&& next.pcm == session.pcm
            &&& next.aus == session.aus
            &&& next.frames == session.frames
            &&& next.errors == session.errors
            &&& event matches SessionEventView::Written(Some(peak)) ==> next.step
                == SessionStepView::SetLevel(peak)
            &&& event matches SessionEventView::Written(None) ==> next.step is ClearLevel
            &&& event is Closed ==> next.step is ClearLevel
            &&& event is LevelSet ==> next.step is Receive
            &&& event is LevelCleared ==> next.step is Ended
        }),
{
}

/// Each step takes exactly what can come of it.
pub proof fn only_what_comes_of_a_step_is_taken(
    session: DecodeSessionView,
    event: SessionEventView,
)
    ensures
        session.accepts(event) <==> {
            ||| session.step is Receive && (event is Received || event is Closed)
            ||| session.step is Decode && event is Decoded
            ||| session.step is Write && event is Written
            ||| session.step is SetLevel && event is LevelSet
            ||| session.step is ClearLevel && event is LevelCleared
        },
        DecodeSessionView::initial().step is Receive,
        DecodeSessionView::initial().frames == 0,
        DecodeSessionView::initial().errors == 0,
{
}

proof fn samples_are_flattened(outcomes: Seq<Option<Seq<i16>>>, parts: Seq<Seq<i16>>)
    requires
        outcomes.len() == parts.len(),
        forall|i: int| 0 <= i < parts.len() ==> #[trigger] parts[i] == samples_of(outcomes[i]),
    ensures
        samples_of_all(outcomes) == parts.flatten(),
    decreases outcomes.len(),
{
    if outcomes.len() > 0 {
        samples_are_flattened(outcomes.drop_last(), parts.drop_last());
        parts.lemma_flatten_and_flatten_alt_are_equivalent();
        parts.drop_last().lemma_flatten_and_flatten_alt_are_equivalent();
    }
}

/// The samples of an SDU are those that its AUs were decoded to so far, all of
/// them and in order, with 480 zeros in the place of each that was lost.
pub proof fn sdu_sounds_as_it_was_decoded(run: Seq<SessionEventView>)
    requires
        is_session_run(run),
    ensures
        session_after(run).pcm == Seq::new(
            outcomes_of(run).len(),
            |i: int|
                (match outcomes_of(run)[i] {
                    Some(samples) => samples,
                    None => Seq::new(480, |j: int| 0i16),
                }),
        ).flatten(),
{
    let outcomes = outcomes_of(run);
    let parts = Seq::new(
        outcomes.len(),
        |i: int|
            match outcomes[i] {
                Some(samples) => samples,
                None => Seq::new(480, |j: int| 0i16),
            },
    );
    assert forall|i: int| 0 <= i < parts.len() implies #[trigger] parts[i] == samples_of(
        outcomes[i],
    ) by {
        assert(parts[i] =~= samples_of(outcomes[i]));
    }
    every_au_is_counted_and_heard(run);
    samples_are_flattened(outcomes, parts);
}

/// An SDU is written as a whole: whenever the write is due, what is written is
/// what its AUs were decoded to, one outcome for each AU that the SDU has.
pub proof fn whole_sdu_is_written(
    session: DecodeSessionView,
    sdu: Seq<u8>,
    decoded: Seq<Seq<i16>>,
)
    requires
        session.step is Receive,
        decoded.len() == crate::bluetooth::aacp_audio::type58_aus(sdu).len(),
        decoded.flatten().len() > 0,
    ensures
        after_decoding(session.after(SessionEventView::Received(sdu)), decoded).pcm
            == decoded.flatten(),
        after_decoding(session.after(SessionEventView::Received(sdu)), decoded).step is Write,
        after_decoding(session.after(SessionEventView::Received(sdu)), decoded).frames
            == session.frames + decoded.len(),
        after_decoding(session.after(SessionEventView::Received(sdu)), decoded).errors
            == session.errors,
{
    let begun = session.after(SessionEventView::Received(sdu));
    if decoded.len() > 0 {
        decoding_adds_up(begun, decoded);
        decoded.lemma_flatten_and_flatten_alt_are_equivalent();
        assert(begun.pcm + decoded.flatten_alt() =~= decoded.flatten());
    }
}

/// The session after several AUs were decoded, one after the other.
pub open spec fn after_decoding(
    session: DecodeSessionView,
    decoded: Seq<Seq<i16>>,
) -> DecodeSessionView
    decreases decoded.len(),
{
    if decoded.len() == 0 {
        session
    } else {
        after_decoding(session, decoded.drop_last()).after(
            SessionEventView::Decoded(Some(decoded.last())),
        )
    }
}

proof fn decoding_adds_up(session: DecodeSessionView, decoded: Seq<Seq<i16>>)
    requires
        session.step == SessionStepView::Decode(0),
        decoded.len() <= session.aus.len(),
    ensures
        ({
            let next = after_decoding(session, decoded);
            &&& next.pcm == session.pcm + decoded.flatten_alt()
            &&& next.aus == session.aus
            &&& next.frames == session.frames + decoded.len()
            &&& next.errors == session.errors
            &&& decoded.len() < session.aus.len() ==> next.step == SessionStepView::Decode(
                decoded.len(),
            )
            &&& decoded.len() > 0 && decoded.len() == session.aus.len() && next.pcm.len() > 0
                ==> next.step is Write
        }),
    decreases decoded.len(),
{
    if decoded.len() == 0 {
        assert(session.pcm + decoded.flatten_alt() =~= session.pcm);
    } else {
        decoding_adds_up(session, decoded.drop_last());
        assert(session.pcm + decoded.drop_last().flatten_alt() + decoded.last() =~= session.pcm
            + decoded.flatten_alt());
    }
}

/// What a session is told is what came of a step, and what it says is to be done
/// is what the model says: nothing is lost on the way in or out.
pub proof fn session_events_and_steps_are_seen_whole(event: SessionEvent, step: SessionStep)
    ensures
        event matches SessionEvent::Received(sdu) ==> event@ == SessionEventView::Received(sdu@),
        event is Closed ==> event@ is Closed,
        event matches SessionEvent::Decoded(Some(samples)) ==> event@ == SessionEventView::Decoded(
            Some(samples@),
        ),
        event matches SessionEvent::Decoded(None) ==> event@ == SessionEventView::Decoded(None),
        event matches SessionEvent::Written(peak) ==> event@ == SessionEventView::Written(peak),
        event is LevelSet ==> event@ is LevelSet,
        event is LevelCleared ==> event@ is LevelCleared,
        step is Receive <==> step@ is Receive,
        step matches SessionStep::Decode(index) ==> step@ == SessionStepView::Decode(index as nat),
        step is Write <==> step@ is Write,
        step matches SessionStep::SetLevel(peak) ==> step@ == SessionStepView::SetLevel(peak),
        step is ClearLevel <==> step@ is ClearLevel,
        step is Ended <==> step@ is Ended,
{
}

} // verus!

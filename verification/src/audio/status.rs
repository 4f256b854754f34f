//! What the hi-res microphone shows of itself to the rest of the program.
use vstd::prelude::*;

verus! {

/// The state of the hi-res microphone. Times are nanoseconds on one monotonic
/// clock.
pub struct MicStatus {
    level: u32,
    active: bool,
    app: Option<String>,
    last_sdu: Option<u128>,
}

#[verifier::ext_equal]
pub struct MicStatusView {
    /// The input level, as the bits of a 32-bit float.
    pub level: u32,
    /// Whether a capture is shown as running.
    pub active: bool,
    /// The application that records.
    pub app: Option<Seq<char>>,
    /// When the last audio SDU came.
    pub last_sdu: Option<nat>,
}

impl MicStatusView {
    /// Nothing runs, nothing was heard. The bits 0 are those of the level 0.0.
    pub open spec fn idle() -> Self {
        MicStatusView { level: 0, active: false, app: None, last_sdu: None }
    }

    /// The microphone is shown as active exactly while an application is named.
    pub open spec fn wf(self) -> bool {
        self.active == (self.app is Some)
    }

    /// The state when `app` is named as the recording application.
    pub open spec fn capturing(self, app: Option<Seq<char>>) -> Self {
        MicStatusView { active: app is Some, app, ..self }
    }

    /// The state when an audio SDU came at `now`.
    pub open spec fn marked(self, now: nat) -> Self {
        MicStatusView { last_sdu: Some(now), ..self }
    }

    /// How long ago the last audio SDU came. A clock that seems to have run
    /// backwards counts as standing still.
    pub open spec fn since_last_sdu(self, now: nat) -> Option<nat> {
        match self.last_sdu {
            Some(t) => Some(
                if now >= t {
                    (now - t) as nat
                } else {
                    0
                },
            ),
            None => None,
        }
    }
}

/// The text of an optional string.
pub open spec fn text_of(s: Option<String>) -> Option<Seq<char>> {
    match s {
        Some(text) => Some(text@),
        None => None,
    }
}

impl View for MicStatus {
    type V = MicStatusView;

    closed spec fn view(&self) -> MicStatusView {
        MicStatusView {
            level: self.level,
            active: self.active,
            app: text_of(self.app),
            last_sdu: match self.last_sdu {
                Some(t) => Some(t as nat),
                None => None,
            },
        }
    }
}

impl Default for MicStatus {
    fn default() -> (status: Self)
        ensures
            status@ == MicStatusView::idle(),
            status@ == (MicStatusView { level: 0, active: false, app: None, last_sdu: None }),
    {
        MicStatus { level: 0, active: false, app: None, last_sdu: None }
    }
}

impl MicStatus {
    #[verifier::type_invariant]
    spec fn active_while_an_app_is_named(self) -> bool {
        self.active == (self.app is Some)
    }

    pub fn new() -> (status: Self)
        ensures
            status@ == MicStatusView::idle(),
            status@ == (MicStatusView { level: 0, active: false, app: None, last_sdu: None }),
    {
        Self::default()
    }

    /// Sets the input level, given as the bits of a 32-bit float.
    pub fn set_level(&mut self, level: u32)
        ensures
            final(self)@ == (MicStatusView { level, ..old(self)@ }),
    {
        proof {
            use_type_invariant(&*self);
        }
        self.level = level;
    }

    /// The input level, as the bits of a 32-bit float.
    pub fn level(&self) -> (level: u32)
        ensures
            level == self@.level,
    {
        self.level
    }

    /// Whether a capture is running.
    pub fn active(&self) -> (active: bool)
        ensures
            active == self@.active,
            active == (self@.app is Some),
    {
        proof {
            use_type_invariant(self);
        }
        self.active
    }

    /// The application that records.
    pub fn app(&self) -> (app: Option<String>)
        ensures
            text_of(app) == self@.app,
            app matches Some(app) ==> self@.app == Some(app@),
            app is None ==> self@.app is None,
    {
        match &self.app {
            Some(app) => Some(app.clone()),
            None => None,
        }
    }

    /// Shows a capture for `app`.
    pub fn set_capture(&mut self, app: Option<String>)
        ensures
            final(self)@ == old(self)@.capturing(text_of(app)),
            app matches Some(app) ==> final(self)@.app == Some(app@),
            app is None ==> final(self)@.app is None,
            final(self)@.active == (app is Some),
            final(self)@.level == old(self)@.level,
            final(self)@.last_sdu == old(self)@.last_sdu,
    {
        *self = MicStatus {
            level: self.level,
            active: app.is_some(),
            app,
            last_sdu: self.last_sdu,
        };
    }

    /// Shows that nothing runs.
    pub fn reset(&mut self)
        ensures
            final(self)@ == MicStatusView::idle(),
            final(self)@ == (MicStatusView { level: 0, active: false, app: None, last_sdu: None }),
    {
        *self = MicStatus { level: 0, active: false, app: None, last_sdu: None };
    }

    /// Record that an audio SDU just arrived from the device.
    pub fn mark_sdu(&mut self, now: u128)
        ensures
            final(self)@ == old(self)@.marked(now as nat),
            final(self)@ == (MicStatusView { last_sdu: Some(now as nat), ..old(self)@ }),
    {
        proof {
            use_type_invariant(&*self);
        }
        self.last_sdu = Some(now);
    }

    /// Time since the last audio SDU, or None if none has arrived yet.
    pub fn since_last_sdu(&self, now: u128) -> (elapsed: Option<u128>)
        ensures
            elapsed matches Some(d) ==> self@.since_last_sdu(now as nat) == Some(d as nat),
            elapsed is None ==> self@.since_last_sdu(now as nat) is None,
            elapsed is None <==> self@.last_sdu is None,
            elapsed matches Some(d) ==> {
                &&& self@.last_sdu matches Some(t)
                &&& now >= t ==> d == now - t
                &&& now < t ==> d == 0
            },
    {
        match self.last_sdu {
            Some(t) => Some(now.saturating_sub(t)),
            None => None,
        }
    }
}

/// The microphone is shown as active exactly while a recording application is
/// named, and every way to change the state keeps it so.
pub proof fn active_means_an_app_is_named(
    status: MicStatusView,
    level: u32,
    app: Option<Seq<char>>,
    now: nat,
)
    requires
        status.wf(),
    ensures
        MicStatusView::idle().wf(),
        (MicStatusView { level, ..status }).wf(),
        status.capturing(app).wf(),
        status.marked(now).wf(),
{
}

/// What was marked is what is measured from, to the nanosecond.
pub proof fn elapsed_counts_from_the_last_mark(status: MicStatusView, earlier: nat, t: nat, now: nat)
    requires
        t <= now,
    ensures
        status.marked(earlier).marked(t).since_last_sdu(now) == Some((now - t) as nat),
{
}

/// Something that is written to the state, by whoever shares it.
pub enum StatusWrite {
    Level(u32),
    Capture(Option<Seq<char>>),
    Reset,
    MarkSdu(nat),
}

impl MicStatusView {
    /// The state after one write.
    pub open spec fn written(self, write: StatusWrite) -> Self {
        match write {
            StatusWrite::Level(level) => MicStatusView { level, ..self },
            StatusWrite::Capture(app) => self.capturing(app),
            StatusWrite::Reset => Self::idle(),
            StatusWrite::MarkSdu(now) => self.marked(now),
        }
    }

    /// The state after several writes.
    pub open spec fn written_all(self, writes: Seq<StatusWrite>) -> Self
        decreases writes.len(),
    {
        if writes.len() == 0 {
            self
        } else {
            self.written_all(writes.drop_last()).written(writes.last())
        }
    }
}

/// The app that a capture was last shown for stays named, whatever levels and
/// SDUs are noted after it, until another capture is shown or the state is
/// reset.
pub proof fn app_stays_named(
    status: MicStatusView,
    app: Option<Seq<char>>,
    later: Seq<StatusWrite>,
)
    requires
        forall|i: int|
            0 <= i < later.len() ==> (#[trigger] later[i]) is Level || later[i] is MarkSdu,
    ensures
        status.capturing(app).written_all(later).app == app,
        status.capturing(app).written_all(later).active == (app is Some),
    decreases later.len(),
{
    if later.len() > 0 {
        assert(later.last() == later[later.len() - 1]);
        assert forall|i: int| 0 <= i < later.drop_last().len() implies (
        #[trigger] later.drop_last()[i]) is Level || later.drop_last()[i] is MarkSdu by {
            assert(later.drop_last()[i] == later[i]);
        }
        app_stays_named(status, app, later.drop_last());
    }
}

/// Each way to change the state changes just what it is about: naming an app
/// touches neither the level nor the time of the last SDU, a mark touches
/// nothing else, and a reset leaves level 0.0, no app and no time.
pub proof fn changes_are_about_one_thing(status: MicStatusView, app: Option<Seq<char>>, now: nat)
    ensures
        status.capturing(app).app == app,
        status.capturing(app).active == (app is Some),
        status.capturing(app).level == status.level,
        status.capturing(app).last_sdu == status.last_sdu,
        status.marked(now).last_sdu == Some(now),
        status.marked(now).app == status.app,
        status.marked(now).active == status.active,
        status.marked(now).level == status.level,
        MicStatusView::idle().level == 0,
        !MicStatusView::idle().active,
        MicStatusView::idle().app is None,
        MicStatusView::idle().last_sdu is None,
{
}

/// The time since the last SDU is the difference to its mark, and is known
/// exactly if there is a mark. It does not depend on anything else that is shown.
pub proof fn elapsed_is_the_difference(status: MicStatusView, now: nat)
    ensures
        status.since_last_sdu(now) is None <==> status.last_sdu is None,
        status.last_sdu matches Some(t) ==> {
            &&& now >= t ==> status.since_last_sdu(now) == Some((now - t) as nat)
            &&& now < t ==> status.since_last_sdu(now) == Some(0nat)
        },
{
}

/// The text of an optional string is the whole string.
pub proof fn text_is_kept_whole(s: Option<String>)
    ensures
        s matches Some(text) ==> text_of(s) == Some(text@),
        s is None ==> text_of(s) is None,
{
}

} // verus!

use vstd::prelude::*;

verus! {

/// Emitted when the hotkey starts a hold.
pub const RECORDING_STARTED_EVENT: &'static str = "recording-started";

/// Emitted, with the error text, when a recorder could not be started.
pub const RECORDING_ERROR_EVENT: &'static str = "recording-error";

/// Emitted when the hotkey is released and a recording goes to transcription.
pub const TRANSCRIBING_STARTED_EVENT: &'static str = "transcribing-started";

/// What a session holds, as seen by the contracts: whether the hotkey is
/// held down, and the recorder that is running, if any.
pub struct Snapshot<R> {
    pub holding: bool,
    pub recorder: Option<R>,
}

/// The push-to-talk session: the hotkey's hold state and the slot of the
/// running recorder. `R` is the recorder type of the embedding program.
pub struct Session<R> {
    holding: bool,
    recorder: Option<R>,
}

impl<R> View for Session<R> {
    type V = Snapshot<R>;

    closed spec fn view(&self) -> Snapshot<R> {
        Snapshot { holding: self.holding, recorder: self.recorder }
    }
}

/// What to do when the hotkey goes down.
#[derive(Debug, PartialEq, Eq)]
pub enum PressPlan {
    /// The key was already held (a key repeat): nothing happens.
    Ignored,
    /// A new hold begins: start a recorder if `start_recorder`, then show the
    /// panel and announce that recording started.
    Begin { start_recorder: bool },
}

/// What to do when the hotkey goes up.
#[derive(Debug, PartialEq, Eq)]
pub enum ReleasePlan<R> {
    /// The key was not held: nothing happens.
    Ignored,
    /// The hold ends with no recorder running: nothing to transcribe.
    Idle,
    /// The hold ends: stop this recorder and transcribe what it captured.
    Transcribe(R),
}

/// The session in which nothing is held and nothing records.
pub open spec fn idle<R>() -> Snapshot<R> {
    Snapshot { holding: false, recorder: None }
}

/// The session after the hotkey goes down.
pub open spec fn press_next<R>(s: Snapshot<R>) -> Snapshot<R> {
    if s.holding {
        s
    } else {
        Snapshot { holding: true, recorder: s.recorder }
    }
}

/// What the hotkey going down asks for.
pub open spec fn press_plan<R>(s: Snapshot<R>) -> PressPlan {
    if s.holding {
        PressPlan::Ignored
    } else {
        PressPlan::Begin { start_recorder: s.recorder is None }
    }
}

/// The session after the hotkey goes up.
pub open spec fn release_next<R>(s: Snapshot<R>) -> Snapshot<R> {
    if s.holding {
        idle()
    } else {
        s
    }
}

/// What the hotkey going up asks for.
pub open spec fn release_plan<R>(s: Snapshot<R>) -> ReleasePlan<R> {
    if !s.holding {
        ReleasePlan::Ignored
    } else {
        match s.recorder {
            Some(r) => ReleasePlan::Transcribe(r),
            None => ReleasePlan::Idle,
        }
    }
}

/// The session once a started recorder is kept.
pub open spec fn install_next<R>(s: Snapshot<R>, r: R) -> Snapshot<R> {
    Snapshot { holding: s.holding, recorder: Some(r) }
}

/// The session once its recorder is handed over.
pub open spec fn take_next<R>(s: Snapshot<R>) -> Snapshot<R> {
    Snapshot { holding: s.holding, recorder: None }
}

/// The panel hides on losing focus only when it is visible and nothing records.
pub open spec fn hides_on_resign<R>(s: Snapshot<R>, panel_visible: bool) -> bool {
    panel_visible && s.recorder is None
}

/// Holding the key down produces key repeats: a press while the key is held
/// changes nothing and is ignored, so pressing twice is the same as pressing once.
pub proof fn lemma_press_repeat_ignored<R>(s: Snapshot<R>)
    ensures
        press_plan(press_next(s)) == PressPlan::Ignored,
        press_next(press_next(s)) == press_next(s),
        s.holding ==> press_next(s) == s && press_plan(s) == PressPlan::Ignored,
{
}

/// A release that follows no press changes nothing and is ignored.
pub proof fn lemma_release_without_press_ignored<R>(s: Snapshot<R>)
    requires
        !s.holding,
    ensures
        release_next(s) == s,
        release_plan(s) == ReleasePlan::<R>::Ignored,
{
}

/// Push to talk: from an idle session, pressing the hotkey asks for a
/// recorder; once it runs, releasing the key hands exactly that recorder over
/// for transcription and leaves the session idle again.
pub proof fn lemma_push_to_talk_cycle<R>(r: R)
    ensures
        press_plan(idle::<R>()) == (PressPlan::Begin { start_recorder: true }),
        release_plan(install_next(press_next(idle::<R>()), r)) == ReleasePlan::Transcribe(r),
        release_next(install_next(press_next(idle::<R>()), r)) == idle::<R>(),
{
}

/// Whatever the session held, releasing a held key ends the hold and leaves
/// no recorder running.
pub proof fn lemma_release_ends_recording<R>(s: Snapshot<R>)
    requires
        s.holding,
    ensures
        release_next(s) == idle::<R>(),
        release_plan(s) == match s.recorder {
            Some(r) => ReleasePlan::Transcribe(r),
            None => ReleasePlan::Idle,
        },
{
}

/// Starting to record while a recorder already runs starts no second one;
/// a press then reuses the running recorder.
pub proof fn lemma_start_is_idempotent<R>(s: Snapshot<R>)
    requires
        s.recorder is Some,
    ensures
        press_plan(s) != (PressPlan::Begin { start_recorder: true }),
        press_next(s).recorder == s.recorder,
{
}

/// Stopping or cancelling leaves no recorder running and keeps the hold
/// state; a second stop finds nothing to hand over.
pub proof fn lemma_take_empties<R>(s: Snapshot<R>)
    ensures
        take_next(s).recorder is None,
        take_next(s).holding == s.holding,
        take_next(take_next(s)) == take_next(s),
{
}

/// With no recorder running, the panel hides on losing focus exactly when it
/// is visible, whether or not the hotkey is held (as after a press whose
/// recorder failed to start).
pub proof fn lemma_panel_hides_when_nothing_records<R>(s: Snapshot<R>, panel_visible: bool)
    requires
        s.recorder is None,
    ensures
        hides_on_resign(s, panel_visible) == panel_visible,
        hides_on_resign(press_next(s), true),
        hides_on_resign(Snapshot { holding: true, recorder: s.recorder }, true),
        hides_on_resign(Snapshot { holding: false, recorder: s.recorder }, true),
{
}

/// The panel never hides on losing focus while a recording is under way.
pub proof fn lemma_panel_stays_while_recording<R>(s: Snapshot<R>, panel_visible: bool)
    requires
        s.recorder is Some,
    ensures
        !hides_on_resign(s, panel_visible),
{
}

impl<R> Session<R> {
    /// A session with the key up and no recorder.
    pub fn new() -> (s: Self)
        ensures
            s@ == idle::<R>(),
    {
        Session { holding: false, recorder: None }
    }

    /// Whether a recorder is running.
    pub fn is_recording(&self) -> (b: bool)
        ensures
            b == (self@.recorder is Some),
    {
        self.recorder.is_some()
    }

    /// Whether the hotkey is held down.
    pub fn is_holding(&self) -> (b: bool)
        ensures
            b == self@.holding,
    {
        self.holding
    }

    /// The hotkey went down.
    pub fn press(&mut self) -> (plan: PressPlan)
        ensures
            final(self)@ == press_next(old(self)@),
            plan == press_plan(old(self)@),
    {
        if self.holding {
            PressPlan::Ignored
        } else {
            self.holding = true;
            PressPlan::Begin { start_recorder: self.recorder.is_none() }
        }
    }

    /// A recorder was started: keep it in the session.
    pub fn install(&mut self, recorder: R)
        requires
            old(self)@.recorder is None,
        ensures
            final(self)@ == install_next(old(self)@, recorder),
    {
        self.recorder = Some(recorder);
    }

    /// The hotkey went up.
    pub fn release(&mut self) -> (plan: ReleasePlan<R>)
        ensures
            final(self)@ == release_next(old(self)@),
            plan == release_plan(old(self)@),
    {
        if !self.holding {
            ReleasePlan::Ignored
        } else {
            self.holding = false;
            match self.recorder.take() {
                Some(r) => ReleasePlan::Transcribe(r),
                None => ReleasePlan::Idle,
            }
        }
    }

    /// Asked to start recording: whether a recorder must be started (it need
    /// not when one already runs).
    pub fn needs_recorder(&self) -> (b: bool)
        ensures
            b == (self@.recorder is None),
    {
        self.recorder.is_none()
    }

    /// Asked to stop or cancel: hand over the running recorder, if any.
    pub fn take_recorder(&mut self) -> (r: Option<R>)
        ensures
            r == old(self)@.recorder,
            final(self)@ == take_next(old(self)@),
    {
        self.recorder.take()
    }

    /// The panel lost focus: whether to hide it.
    pub fn hide_on_resign(&self, panel_visible: bool) -> (b: bool)
        ensures
            b == hides_on_resign(self@, panel_visible),
    {
        panel_visible && self.recorder.is_none()
    }
}

} // verus!

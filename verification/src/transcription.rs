use vstd::prelude::*;

use crate::text::{prefixed, trim, trimmed};

verus! {

/// Emitted, with the transcript (empty on failure), when a hotkey job ends.
pub const TRANSCRIPTION_DONE_EVENT: &'static str = "transcription-done";

/// Emitted with `true` when the stop command starts transcribing, and with
/// `false` when it succeeded.
pub const TRANSCRIBING_EVENT: &'static str = "transcribing";

/// The view of an outcome that carries texts.
pub open spec fn outcome_view(r: Result<String, String>) -> Result<Seq<char>, Seq<char>> {
    match r {
        Ok(t) => Ok(t@),
        Err(e) => Err(e@),
    }
}

/// The view of a step result that carries an error text.
pub open spec fn status_view(r: Result<(), String>) -> Result<(), Seq<char>> {
    match r {
        Ok(()) => Ok(()),
        Err(e) => Err(e@),
    }
}

// ---------------------------------------------------------------------------
// The job that turns a finished recording into text.
// ---------------------------------------------------------------------------

/// Who asked for the transcription.
#[derive(Debug, Clone, Copy, PartialEq, Eq, Structural)]
pub enum JobMode {
    /// The hotkey was released: the result goes out as a `transcription-done`
    /// event and failures are only logged.
    Hotkey,
    /// The frontend called the stop command: the result is its reply, and
    /// `transcribing` events frame the work.
    Command,
}

#[derive(Debug, Clone, Copy, PartialEq, Eq, Structural)]
pub enum JobStage {
    Stopping,
    Locating,
    Transcribing,
    Done,
}

pub struct JobState {
    pub mode: JobMode,
    pub stage: JobStage,
}

/// What the embedding program reports back to a job. `S` is `String` in
/// code and `Seq<char>` in contracts.
#[derive(Debug, PartialEq, Eq)]
pub enum JobEvent<S> {
    /// The recorder stopped and its samples were taken.
    Stopped,
    /// The model file's path was looked up.
    Located(Result<(), S>),
    /// The speech engine ran.
    Transcribed(Result<S, S>),
    /// The background task that ran the engine could not be joined.
    JoinFailed(S),
}

/// What a job asks the embedding program to do.
#[derive(Debug, PartialEq, Eq)]
pub enum JobAction<S> {
    StopRecorder,
    /// Emit the `transcribing` event with this flag.
    AnnounceTranscribing(bool),
    LocateModel,
    Transcribe,
    /// Write this line to standard error.
    Log(S),
    /// Write this line to standard output.
    Print(S),
    /// Emit the `transcription-done` event with this text.
    Deliver(S),
    /// Answer the stop command with this result.
    Reply(Result<S, S>),
}

impl DeepView for JobEvent<String> {
    type V = JobEvent<Seq<char>>;

    open spec fn deep_view(&self) -> JobEvent<Seq<char>> {
        match self {
            JobEvent::Stopped => JobEvent::Stopped,
            JobEvent::Located(r) => JobEvent::Located(status_view(*r)),
            JobEvent::Transcribed(r) => JobEvent::Transcribed(outcome_view(*r)),
            JobEvent::JoinFailed(e) => JobEvent::JoinFailed(e@),
        }
    }
}

impl DeepView for JobAction<String> {
    type V = JobAction<Seq<char>>;

    open spec fn deep_view(&self) -> JobAction<Seq<char>> {
        match self {
            JobAction::StopRecorder => JobAction::StopRecorder,
            JobAction::AnnounceTranscribing(b) => JobAction::AnnounceTranscribing(*b),
            JobAction::LocateModel => JobAction::LocateModel,
            JobAction::Transcribe => JobAction::Transcribe,
            JobAction::Log(m) => JobAction::Log(m@),
            JobAction::Print(m) => JobAction::Print(m@),
            JobAction::Deliver(t) => JobAction::Deliver(t@),
            JobAction::Reply(r) => JobAction::Reply(outcome_view(*r)),
        }
    }
}

pub open spec fn job_start(mode: JobMode) -> JobState {
    JobState { mode, stage: JobStage::Stopping }
}

/// One step of a job: the next state and the actions, in order.
pub open spec fn job_step(s: JobState, e: JobEvent<Seq<char>>) -> (JobState, Seq<
    JobAction<Seq<char>>,
>) {
    let done = JobState { mode: s.mode, stage: JobStage::Done };
    match (s.stage, e) {
        (JobStage::Stopping, JobEvent::Stopped) => {
            let next = JobState { mode: s.mode, stage: JobStage::Locating };
            match s.mode {
                JobMode::Hotkey => (next, seq![JobAction::LocateModel]),
                JobMode::Command => (
                    next,
                    seq![JobAction::AnnounceTranscribing(true), JobAction::LocateModel],
                ),
            }
        },
        (JobStage::Locating, JobEvent::Located(Ok(()))) => (
            JobState { mode: s.mode, stage: JobStage::Transcribing },
            seq![JobAction::Transcribe],
        ),
        (JobStage::Locating, JobEvent::Located(Err(m))) => match s.mode {
            JobMode::Hotkey => (
                done,
                seq![JobAction::Log("model_path: "@ + m), JobAction::Deliver(Seq::empty())],
            ),
            JobMode::Command => (done, seq![JobAction::Reply(Err(m))]),
        },
        (JobStage::Transcribing, JobEvent::Transcribed(Ok(t))) => match s.mode {
            JobMode::Hotkey => (
                done,
                seq![JobAction::Print("transcribed: "@ + t), JobAction::Deliver(t)],
            ),
            JobMode::Command => (
                done,
                seq![JobAction::AnnounceTranscribing(false), JobAction::Reply(Ok(t))],
            ),
        },
        (JobStage::Transcribing, JobEvent::Transcribed(Err(m))) => match s.mode {
            JobMode::Hotkey => (
                done,
                seq![JobAction::Log("transcribe error: "@ + m), JobAction::Deliver(Seq::empty())],
            ),
            JobMode::Command => (done, seq![JobAction::Reply(Err(m))]),
        },
        (JobStage::Transcribing, JobEvent::JoinFailed(m)) => match s.mode {
            JobMode::Command => (done, seq![JobAction::Reply(Err("join: "@ + m))]),
            JobMode::Hotkey => (s, Seq::empty()),
        },
        _ => (s, Seq::empty()),
    }
}


/// A job taking in a series of events: the state it ends in and all the
/// actions it asked for, in order.
pub open spec fn job_run(s: JobState, events: Seq<JobEvent<Seq<char>>>) -> (JobState, Seq<
    JobAction<Seq<char>>,
>)
    decreases events.len(),
{
    if events.len() == 0 {
        (s, Seq::empty())
    } else {
        let (s1, a1) = job_step(s, events[0]);
        let (s2, a2) = job_run(s1, events.drop_first());
        (s2, a1 + a2)
    }
}

/// The events of a job that stops, looks for the model and runs the engine.
pub open spec fn job_events(
    located: Result<(), Seq<char>>,
    transcribed: Result<Seq<char>, Seq<char>>,
) -> Seq<JobEvent<Seq<char>>> {
    seq![JobEvent::Stopped, JobEvent::Located(located), JobEvent::Transcribed(transcribed)]
}

/// A finished job takes in nothing more.
pub proof fn lemma_job_done_is_final(s: JobState, e: JobEvent<Seq<char>>)
    requires
        s.stage == JobStage::Done,
    ensures
        job_step(s, e) == (s, Seq::<JobAction<Seq<char>>>::empty()),
{
}

/// After a hotkey release the frontend always hears back exactly once: the
/// job ends with one `transcription-done` event, which carries the
/// transcript when everything worked and empty text when anything failed.
pub proof fn lemma_hotkey_job_delivers_once(
    located: Result<(), Seq<char>>,
    transcribed: Result<Seq<char>, Seq<char>>,
)
    ensures
        ({
            let r = job_run(job_start(JobMode::Hotkey), job_events(located, transcribed));
            let text = match (located, transcribed) {
                (Ok(()), Ok(t)) => t,
                _ => Seq::empty(),
            };
            &&& r.0.stage == JobStage::Done
            &&& r.1.len() > 0
            &&& r.1.last() == JobAction::Deliver(text)
            &&& forall|i: int| 0 <= i < r.1.len() - 1 ==> !(#[trigger] r.1[i] is Deliver)
        }),
{
    let evs = job_events(located, transcribed);
    reveal_with_fuel(job_run, 4);
    assert(evs.drop_first().drop_first().drop_first() =~= Seq::<JobEvent<Seq<char>>>::empty());
    assert(evs.drop_first()[0] == evs[1]);
    assert(evs.drop_first().drop_first()[0] == evs[2]);
    let r = job_run(job_start(JobMode::Hotkey), evs);
    match located {
        Ok(()) => match transcribed {
            Ok(t) => {
                assert(r.1 =~= seq![
                    JobAction::LocateModel,
                    JobAction::Transcribe,
                    JobAction::Print("transcribed: "@ + t),
                    JobAction::Deliver(t),
                ]);
            },
            Err(m) => {
                assert(r.1 =~= seq![
                    JobAction::LocateModel,
                    JobAction::Transcribe,
                    JobAction::Log("transcribe error: "@ + m),
                    JobAction::Deliver(Seq::empty()),
                ]);
            },
        },
        Err(m) => {
            assert(r.1 =~= seq![
                JobAction::LocateModel,
                JobAction::Log("model_path: "@ + m),
                JobAction::Deliver(Seq::empty()),
            ]);
        },
    }
}

/// The stop command is answered exactly once, with the transcript or the
/// first error; when it succeeds, `transcribing` was announced as started
/// before the work and as finished before the answer.
pub proof fn lemma_command_job_replies_once(
    located: Result<(), Seq<char>>,
    transcribed: Result<Seq<char>, Seq<char>>,
)
    ensures
        ({
            let r = job_run(job_start(JobMode::Command), job_events(located, transcribed));
            let answer = match located {
                Err(m) => Err(m),
                Ok(()) => transcribed,
            };
            &&& r.0.stage == JobStage::Done
            &&& r.1.len() > 0
            &&& r.1.last() == JobAction::Reply(answer)
            &&& forall|i: int| 0 <= i < r.1.len() - 1 ==> !(#[trigger] r.1[i] is Reply)
            &&& r.1[0] == JobAction::<Seq<char>>::AnnounceTranscribing(true)
            &&& answer is Ok ==> r.1[r.1.len() - 2] == JobAction::<
                Seq<char>,
            >::AnnounceTranscribing(false)
        }),
{
    let evs = job_events(located, transcribed);
    reveal_with_fuel(job_run, 4);
    assert(evs.drop_first().drop_first().drop_first() =~= Seq::<JobEvent<Seq<char>>>::empty());
    assert(evs.drop_first()[0] == evs[1]);
    assert(evs.drop_first().drop_first()[0] == evs[2]);
    let r = job_run(job_start(JobMode::Command), evs);
    match located {
        Ok(()) => match transcribed {
            Ok(t) => {
                assert(r.1 =~= seq![
                    JobAction::AnnounceTranscribing(true),
                    JobAction::LocateModel,
                    JobAction::Transcribe,
                    JobAction::AnnounceTranscribing(false),
                    JobAction::Reply(Ok(t)),
                ]);
            },
            Err(m) => {
                assert(r.1 =~= seq![
                    JobAction::AnnounceTranscribing(true),
                    JobAction::LocateModel,
                    JobAction::Transcribe,
                    JobAction::Reply(Err(m)),
                ]);
            },
        },
        Err(m) => {
            assert(r.1 =~= seq![
                JobAction::AnnounceTranscribing(true),
                JobAction::LocateModel,
                JobAction::Reply(Err(m)),
            ]);
        },
    }
}

/// The job that follows a recording: stop the recorder, find the model, run
/// the speech engine, and hand the text to whoever asked.
pub struct Job {
    mode: JobMode,
    stage: JobStage,
}

impl View for Job {
    type V = JobState;

    closed spec fn view(&self) -> JobState {
        JobState { mode: self.mode, stage: self.stage }
    }
}

impl Job {
    /// A new job and its first action.
    pub fn start(mode: JobMode) -> (r: (Job, Vec<JobAction<String>>))
        ensures
            r.0@ == job_start(mode),
            r.1.deep_view() == seq![JobAction::<Seq<char>>::StopRecorder],
    {
        let v = vec![JobAction::StopRecorder];
        assert(v.deep_view() =~= seq![JobAction::<Seq<char>>::StopRecorder]);
        (Job { mode, stage: JobStage::Stopping }, v)
    }

    /// Whether the job has finished.
    pub fn is_done(&self) -> (b: bool)
        ensures
            b == (self@.stage == JobStage::Done),
    {
        matches!(self.stage, JobStage::Done)
    }

    /// Take in what the embedding program reports; returns what to do next.
    pub fn step(&mut self, event: JobEvent<String>) -> (acts: Vec<JobAction<String>>)
        ensures
            final(self)@ == job_step(old(self)@, event.deep_view()).0,
            acts.deep_view() == job_step(old(self)@, event.deep_view()).1,
    {
        let ghost expected = job_step(self@, event.deep_view()).1;
        let mut acts: Vec<JobAction<String>> = Vec::new();
        match (self.stage, event) {
            (JobStage::Stopping, JobEvent::Stopped) => {
                self.stage = JobStage::Locating;
                match self.mode {
                    JobMode::Hotkey => {},
                    JobMode::Command => acts.push(JobAction::AnnounceTranscribing(true)),
                }
                acts.push(JobAction::LocateModel);
            },
            (JobStage::Locating, JobEvent::Located(Ok(()))) => {
                self.stage = JobStage::Transcribing;
                acts.push(JobAction::Transcribe);
            },
            (JobStage::Locating, JobEvent::Located(Err(m))) => {
                self.stage = JobStage::Done;
                match self.mode {
                    JobMode::Hotkey => {
                        acts.push(JobAction::Log(prefixed("model_path: ", m.as_str())));
                        acts.push(JobAction::Deliver(String::new()));
                    },
                    JobMode::Command => acts.push(JobAction::Reply(Err(m))),
                }
            },
            (JobStage::Transcribing, JobEvent::Transcribed(Ok(t))) => {
                self.stage = JobStage::Done;
                match self.mode {
                    JobMode::Hotkey => {
                        acts.push(JobAction::Print(prefixed("transcribed: ", t.as_str())));
                        acts.push(JobAction::Deliver(t));
                    },
                    JobMode::Command => {
                        acts.push(JobAction::AnnounceTranscribing(false));
                        acts.push(JobAction::Reply(Ok(t)));
                    },
                }
            },
            (JobStage::Transcribing, JobEvent::Transcribed(Err(m))) => {
                self.stage = JobStage::Done;
                match self.mode {
                    JobMode::Hotkey => {
                        acts.push(JobAction::Log(prefixed("transcribe error: ", m.as_str())));
                        acts.push(JobAction::Deliver(String::new()));
                    },
                    JobMode::Command => acts.push(JobAction::Reply(Err(m))),
                }
            },
            (JobStage::Transcribing, JobEvent::JoinFailed(m)) => {
                match self.mode {
                    JobMode::Command => {
                        self.stage = JobStage::Done;
                        acts.push(JobAction::Reply(Err(prefixed("join: ", m.as_str()))));
                    },
                    JobMode::Hotkey => {},
                }
            },
            _ => {},
        }
        assert(acts.deep_view() =~= expected);
        acts
    }
}


// ---------------------------------------------------------------------------
// One run of the speech engine over a recording.
// ---------------------------------------------------------------------------

#[derive(Debug, Clone, Copy, PartialEq, Eq, Structural)]
pub enum EngineStage {
    Loading,
    CreatingState,
    Running,
    Counting,
    Reading,
    Done,
}

/// A run of the speech engine as the contracts see it: the stage, the next
/// segment to read and how many there are, and the text read so far.
pub struct EngineView {
    pub stage: EngineStage,
    pub next: i32,
    pub count: i32,
    pub text: Seq<char>,
}

/// What the embedding program reports back to an engine run.
#[derive(Debug, PartialEq, Eq)]
pub enum EngineEvent<S> {
    /// The model file's path is not valid UTF-8, so it cannot be loaded.
    PathNotUtf8,
    /// The model was loaded into a context.
    Loaded(Result<(), S>),
    /// The loaded context could not be found in its cell.
    NoContextCell,
    /// The cell holds no context.
    NoContext,
    /// A decoding state was created from the context.
    StateCreated(Result<(), S>),
    /// The full decoding ran over the samples.
    Ran(Result<(), S>),
    /// The number of decoded segments was read.
    Counted(Result<i32, S>),
    /// The text of the segment asked for was read.
    Segment(Result<S, S>),
}

/// What an engine run asks the embedding program to do.
#[derive(Debug, PartialEq, Eq)]
pub enum EngineAction<S> {
    /// Load the model into the shared context.
    Load,
    CreateState,
    /// Run the full decoding over the samples.
    Run,
    CountSegments,
    /// Read the text of this segment.
    ReadSegment(i32),
    /// The run is over, with this transcript or error.
    Finish(Result<S, S>),
}

impl DeepView for EngineEvent<String> {
    type V = EngineEvent<Seq<char>>;

    open spec fn deep_view(&self) -> EngineEvent<Seq<char>> {
        match self {
            EngineEvent::PathNotUtf8 => EngineEvent::PathNotUtf8,
            EngineEvent::Loaded(r) => EngineEvent::Loaded(status_view(*r)),
            EngineEvent::NoContextCell => EngineEvent::NoContextCell,
            EngineEvent::NoContext => EngineEvent::NoContext,
            EngineEvent::StateCreated(r) => EngineEvent::StateCreated(status_view(*r)),
            EngineEvent::Ran(r) => EngineEvent::Ran(status_view(*r)),
            EngineEvent::Counted(r) => EngineEvent::Counted(
                match r {
                    Ok(n) => Ok(*n),
                    Err(e) => Err(e@),
                },
            ),
            EngineEvent::Segment(r) => EngineEvent::Segment(outcome_view(*r)),
        }
    }
}

impl DeepView for EngineAction<String> {
    type V = EngineAction<Seq<char>>;

    open spec fn deep_view(&self) -> EngineAction<Seq<char>> {
        match self {
            EngineAction::Load => EngineAction::Load,
            EngineAction::CreateState => EngineAction::CreateState,
            EngineAction::Run => EngineAction::Run,
            EngineAction::CountSegments => EngineAction::CountSegments,
            EngineAction::ReadSegment(i) => EngineAction::ReadSegment(*i),
            EngineAction::Finish(r) => EngineAction::Finish(outcome_view(*r)),
        }
    }
}

pub open spec fn engine_at(stage: EngineStage) -> EngineView {
    EngineView { stage, next: 0, count: 0, text: Seq::empty() }
}

/// How a run begins: an empty recording gives an empty transcript at once;
/// otherwise the model is loaded unless it already is.
pub open spec fn engine_start(sample_count: usize, loaded: bool) -> (EngineView, Seq<
    EngineAction<Seq<char>>,
>) {
    if sample_count == 0 {
        (engine_at(EngineStage::Done), seq![EngineAction::Finish(Ok(Seq::empty()))])
    } else if !loaded {
        (engine_at(EngineStage::Loading), seq![EngineAction::Load])
    } else {
        (engine_at(EngineStage::CreatingState), seq![EngineAction::CreateState])
    }
}

pub open spec fn engine_fail(s: EngineView, m: Seq<char>) -> (EngineView, Seq<
    EngineAction<Seq<char>>,
>) {
    (EngineView { stage: EngineStage::Done, ..s }, seq![EngineAction::Finish(Err(m))])
}

/// One step of an engine run: the next state and the actions, in order.
pub open spec fn engine_step(s: EngineView, e: EngineEvent<Seq<char>>) -> (EngineView, Seq<
    EngineAction<Seq<char>>,
>) {
    match (s.stage, e) {
        (EngineStage::Loading, EngineEvent::PathNotUtf8) => engine_fail(
            s,
            "non-utf8 model path"@,
        ),
        (EngineStage::Loading, EngineEvent::Loaded(Err(m))) => engine_fail(
            s,
            "whisper load: "@ + m,
        ),
        (EngineStage::Loading, EngineEvent::Loaded(Ok(()))) => (
            EngineView { stage: EngineStage::CreatingState, ..s },
            seq![EngineAction::CreateState],
        ),
        (EngineStage::CreatingState, EngineEvent::NoContextCell) => engine_fail(
            s,
            "no whisper ctx"@,
        ),
        (EngineStage::CreatingState, EngineEvent::NoContext) => engine_fail(
            s,
            "whisper ctx missing"@,
        ),
        (EngineStage::CreatingState, EngineEvent::StateCreated(Err(m))) => engine_fail(
            s,
            "create_state: "@ + m,
        ),
        (EngineStage::CreatingState, EngineEvent::StateCreated(Ok(()))) => (
            EngineView { stage: EngineStage::Running, ..s },
            seq![EngineAction::Run],
        ),
        (EngineStage::Running, EngineEvent::Ran(Err(m))) => engine_fail(s, "full: "@ + m),
        (EngineStage::Running, EngineEvent::Ran(Ok(()))) => (
            EngineView { stage: EngineStage::Counting, ..s },
            seq![EngineAction::CountSegments],
        ),
        (EngineStage::Counting, EngineEvent::Counted(Err(m))) => engine_fail(s, m),
        (EngineStage::Counting, EngineEvent::Counted(Ok(n))) => if n <= 0 {
            (
                EngineView { stage: EngineStage::Done, ..s },
                seq![EngineAction::Finish(Ok(trimmed(s.text)))],
            )
        } else {
            (
                EngineView { stage: EngineStage::Reading, next: 0, count: n, text: s.text },
                seq![EngineAction::ReadSegment(0)],
            )
        },
        (EngineStage::Reading, EngineEvent::Segment(Err(m))) => engine_fail(s, "seg: "@ + m),
        (EngineStage::Reading, EngineEvent::Segment(Ok(t))) => {
            let text = s.text + t;
            let next = s.next + 1;
            if next < s.count {
                (
                    EngineView { stage: EngineStage::Reading, next: next as i32, count: s.count, text },
                    seq![EngineAction::ReadSegment(next as i32)],
                )
            } else {
                (
                    EngineView { stage: EngineStage::Done, next: next as i32, count: s.count, text },
                    seq![EngineAction::Finish(Ok(trimmed(text)))],
                )
            }
        },
        _ => (s, Seq::empty()),
    }
}


/// An engine run taking in a series of events: the state it ends in and all
/// the actions it asked for, in order.
pub open spec fn engine_run(s: EngineView, events: Seq<EngineEvent<Seq<char>>>) -> (EngineView, Seq<
    EngineAction<Seq<char>>,
>)
    decreases events.len(),
{
    if events.len() == 0 {
        (s, Seq::empty())
    } else {
        let (s1, a1) = engine_step(s, events[0]);
        let (s2, a2) = engine_run(s1, events.drop_first());
        (s2, a1 + a2)
    }
}

/// The texts of `segments` one after the other.
pub open spec fn joined(segments: Seq<Seq<char>>) -> Seq<char>
    decreases segments.len(),
{
    if segments.len() == 0 {
        Seq::empty()
    } else {
        segments[0] + joined(segments.drop_first())
    }
}

/// The events that report each of `segments` as read.
pub open spec fn segment_events(segments: Seq<Seq<char>>) -> Seq<EngineEvent<Seq<char>>> {
    segments.map_values(|t: Seq<char>| EngineEvent::Segment(Ok(t)))
}

proof fn lemma_reading_joins(s: EngineView, segments: Seq<Seq<char>>)
    requires
        s.stage == EngineStage::Reading,
        0 <= s.next < s.count,
        s.count - s.next == segments.len(),
    ensures
        ({
            let r = engine_run(s, segment_events(segments));
            &&& r.0.stage == EngineStage::Done
            &&& r.1.len() > 0
            &&& r.1.last() == EngineAction::Finish(Ok(trimmed(s.text + joined(segments))))
        }),
    decreases segments.len(),
{
    let evs = segment_events(segments);
    let (s1, a1) = engine_step(s, evs[0]);
    assert(evs[0] == EngineEvent::Segment(Ok(segments[0])));
    let rest = segments.drop_first();
    assert(evs.drop_first() =~= segment_events(rest));
    if segments.len() == 1 {
        assert(rest.len() == 0);
        assert(joined(rest) =~= Seq::<char>::empty());
        assert(s.text + joined(segments) =~= s.text + segments[0]);
        assert(segment_events(rest) =~= Seq::<EngineEvent<Seq<char>>>::empty());
    } else {
        lemma_reading_joins(s1, rest);
        assert(s1.text + joined(rest) =~= s.text + joined(segments));
    }
}

/// The transcript is the texts of all decoded segments, joined in the order
/// they were read, without leading and trailing whitespace.
pub proof fn lemma_engine_joins_segments(segments: Seq<Seq<char>>)
    requires
        0 < segments.len() <= i32::MAX,
    ensures
        ({
            let evs = seq![
                EngineEvent::StateCreated(Ok(())),
                EngineEvent::Ran(Ok(())),
                EngineEvent::Counted(Ok(segments.len() as i32)),
            ] + segment_events(segments);
            let r = engine_run(engine_start(1, true).0, evs);
            &&& r.0.stage == EngineStage::Done
            &&& r.1.len() > 0
            &&& r.1.last() == EngineAction::Finish(Ok(trimmed(joined(segments))))
        }),
{
    let segs = segment_events(segments);
    let evs = seq![
        EngineEvent::StateCreated(Ok(())),
        EngineEvent::Ran(Ok(())),
        EngineEvent::Counted(Ok(segments.len() as i32)),
    ] + segs;
    let s0 = engine_start(1, true).0;
    let (s1, a1) = engine_step(s0, evs[0]);
    let (s2, a2) = engine_step(s1, evs[1]);
    let (s3, a3) = engine_step(s2, evs[2]);
    assert(evs.drop_first().drop_first().drop_first() =~= segs);
    assert(evs.drop_first()[0] == evs[1]);
    assert(evs.drop_first().drop_first()[0] == evs[2]);
    lemma_reading_joins(s3, segments);
    assert(s3.text + joined(segments) =~= joined(segments));
    let r3 = engine_run(s3, segs);
    assert(engine_run(s2, evs.drop_first().drop_first()) == (r3.0, a3 + r3.1));
    assert(engine_run(s1, evs.drop_first()) == (r3.0, a2 + (a3 + r3.1)));
    assert(engine_run(s0, evs) == (r3.0, a1 + (a2 + (a3 + r3.1))));
}

/// Any recording with samples is decoded: the run does not finish at the
/// start, but asks to load the model when it is not loaded yet and to create
/// a decoding state when it is.
pub proof fn lemma_recording_is_decoded(sample_count: usize, loaded: bool)
    requires
        sample_count > 0,
    ensures
        engine_start(sample_count, loaded).0.stage != EngineStage::Done,
        !loaded ==> engine_start(sample_count, loaded).1 == seq![EngineAction::<Seq<char>>::Load],
        loaded ==> engine_start(sample_count, loaded).1 == seq![
            EngineAction::<Seq<char>>::CreateState,
        ],
{
}

/// The events of a run over a recording with samples in which every step
/// works: loading the model when it is not loaded yet, then decoding and
/// reading each of `segments`.
pub open spec fn smooth_run(loaded: bool, segments: Seq<Seq<char>>) -> Seq<EngineEvent<Seq<char>>> {
    let decode = seq![
        EngineEvent::StateCreated(Ok(())),
        EngineEvent::Ran(Ok(())),
        EngineEvent::Counted(Ok(segments.len() as i32)),
    ] + segment_events(segments);
    if loaded {
        decode
    } else {
        seq![EngineEvent::Loaded(Ok(()))] + decode
    }
}

/// For every recording with samples, loaded model or not, a run in which
/// every step works ends with the segments' texts joined in order and trimmed.
pub proof fn lemma_every_recording_joins_segments(
    sample_count: usize,
    loaded: bool,
    segments: Seq<Seq<char>>,
)
    requires
        sample_count > 0,
        0 < segments.len() <= i32::MAX,
    ensures
        ({
            let r = engine_run(engine_start(sample_count, loaded).0, smooth_run(loaded, segments));
            &&& r.0.stage == EngineStage::Done
            &&& r.1.len() > 0
            &&& r.1.last() == EngineAction::Finish(Ok(trimmed(joined(segments))))
        }),
{
    lemma_engine_joins_segments(segments);
    let decode = smooth_run(true, segments);
    let s0 = engine_start(sample_count, loaded).0;
    assert(engine_start(1, true).0 == engine_at(EngineStage::CreatingState));
    if loaded {
        assert(s0 == engine_start(1, true).0);
    } else {
        let evs = smooth_run(false, segments);
        assert(evs.drop_first() =~= decode);
        assert(evs[0] == EngineEvent::<Seq<char>>::Loaded(Ok(())));
        let (s1, a1) = engine_step(s0, evs[0]);
        assert(s1 == engine_start(1, true).0);
        let r = engine_run(s1, decode);
        assert(engine_run(s0, evs) == (r.0, a1 + r.1));
    }
}

/// An empty recording gives an empty transcript at once, without touching
/// the model.
pub proof fn lemma_empty_recording(loaded: bool)
    ensures
        engine_start(0, loaded).1 == seq![EngineAction::Finish(Ok(Seq::<char>::empty()))],
        engine_start(0, loaded).0.stage == EngineStage::Done,
{
}


/// How the speech engine decodes a recording.
pub struct DecodeSettings {
    /// The spoken language.
    pub language: String,
    /// Whether to translate into English.
    pub translate: bool,
    pub print_progress: bool,
    pub print_realtime: bool,
    pub print_special: bool,
    pub print_timestamps: bool,
    /// Whether to suppress blank output at the start of a segment.
    pub suppress_blank: bool,
    /// How many candidates greedy decoding keeps.
    pub greedy_best_of: i32,
}

/// English dictation: greedy decoding of one candidate, no translation, no
/// console output, blanks suppressed.
pub fn decode_settings() -> (d: DecodeSettings)
    ensures
        d.language@ == "en"@,
        !d.translate,
        !d.print_progress,
        !d.print_realtime,
        !d.print_special,
        !d.print_timestamps,
        d.suppress_blank,
        d.greedy_best_of == 1,
{
    DecodeSettings {
        language: String::from_str("en"),
        translate: false,
        print_progress: false,
        print_realtime: false,
        print_special: false,
        print_timestamps: false,
        suppress_blank: true,
        greedy_best_of: 1,
    }
}

/// A run of the speech engine over a recording: load the model if needed,
/// decode, and join the segments' texts into the trimmed transcript.
pub struct Engine {
    stage: EngineStage,
    next: i32,
    count: i32,
    text: String,
}

impl View for Engine {
    type V = EngineView;

    closed spec fn view(&self) -> EngineView {
        EngineView { stage: self.stage, next: self.next, count: self.count, text: self.text@ }
    }
}

impl Engine {
    /// The well-formedness of a run: while reading, the next segment is one
    /// of those counted.
    pub closed spec fn wf(&self) -> bool {
        self.stage == EngineStage::Reading ==> 0 <= self.next < self.count
    }

    /// A run over `sample_count` samples, with the model `loaded` or not.
    pub fn start(sample_count: usize, loaded: bool) -> (r: (Engine, Vec<EngineAction<String>>))
        ensures
            r.0.wf(),
            r.0@ == engine_start(sample_count, loaded).0,
            r.1.deep_view() == engine_start(sample_count, loaded).1,
    {
        let ghost expected = engine_start(sample_count, loaded).1;
        let mut acts: Vec<EngineAction<String>> = Vec::new();
        let stage = if sample_count == 0 {
            acts.push(EngineAction::Finish(Ok(String::new())));
            EngineStage::Done
        } else if !loaded {
            acts.push(EngineAction::Load);
            EngineStage::Loading
        } else {
            acts.push(EngineAction::CreateState);
            EngineStage::CreatingState
        };
        assert(acts.deep_view() =~= expected);
        (Engine { stage, next: 0, count: 0, text: String::new() }, acts)
    }

    /// Whether the run has finished.
    pub fn is_done(&self) -> (b: bool)
        ensures
            b == (self@.stage == EngineStage::Done),
    {
        matches!(self.stage, EngineStage::Done)
    }

    fn fail(&mut self, m: String) -> (acts: Vec<EngineAction<String>>)
        ensures
            final(self)@ == engine_fail(old(self)@, m@).0,
            acts.deep_view() == engine_fail(old(self)@, m@).1,
            final(self).wf(),
    {
        self.stage = EngineStage::Done;
        let acts = vec![EngineAction::Finish(Err(m))];
        assert(acts.deep_view() =~= engine_fail(old(self)@, m@).1);
        acts
    }

    /// Take in what the embedding program reports; returns what to do next.
    pub fn step(&mut self, event: EngineEvent<String>) -> (acts: Vec<EngineAction<String>>)
        requires
            old(self).wf(),
        ensures
            final(self).wf(),
            final(self)@ == engine_step(old(self)@, event.deep_view()).0,
            acts.deep_view() == engine_step(old(self)@, event.deep_view()).1,
    {
        let ghost expected = engine_step(self@, event.deep_view());
        match (self.stage, event) {
            (EngineStage::Loading, EngineEvent::PathNotUtf8) => {
                self.fail(String::from_str("non-utf8 model path"))
            },
            (EngineStage::Loading, EngineEvent::Loaded(Err(m))) => {
                self.fail(prefixed("whisper load: ", m.as_str()))
            },
            (EngineStage::Loading, EngineEvent::Loaded(Ok(()))) => {
                self.stage = EngineStage::CreatingState;
                let acts = vec![EngineAction::CreateState];
                assert(acts.deep_view() =~= expected.1);
                acts
            },
            (EngineStage::CreatingState, EngineEvent::NoContextCell) => {
                self.fail(String::from_str("no whisper ctx"))
            },
            (EngineStage::CreatingState, EngineEvent::NoContext) => {
                self.fail(String::from_str("whisper ctx missing"))
            },
            (EngineStage::CreatingState, EngineEvent::StateCreated(Err(m))) => {
                self.fail(prefixed("create_state: ", m.as_str()))
            },
            (EngineStage::CreatingState, EngineEvent::StateCreated(Ok(()))) => {
                self.stage = EngineStage::Running;
                let acts = vec![EngineAction::Run];
                assert(acts.deep_view() =~= expected.1);
                acts
            },
            (EngineStage::Running, EngineEvent::Ran(Err(m))) => {
                self.fail(prefixed("full: ", m.as_str()))
            },
            (EngineStage::Running, EngineEvent::Ran(Ok(()))) => {
                self.stage = EngineStage::Counting;
                let acts = vec![EngineAction::CountSegments];
                assert(acts.deep_view() =~= expected.1);
                acts
            },
            (EngineStage::Counting, EngineEvent::Counted(Err(m))) => self.fail(m),
            (EngineStage::Counting, EngineEvent::Counted(Ok(n))) => {
                if n <= 0 {
                    self.stage = EngineStage::Done;
                    let acts = vec![EngineAction::Finish(Ok(trim(self.text.as_str())))];
                    assert(acts.deep_view() =~= expected.1);
                    acts
                } else {
                    self.stage = EngineStage::Reading;
                    self.next = 0;
                    self.count = n;
                    let acts = vec![EngineAction::ReadSegment(0)];
                    assert(acts.deep_view() =~= expected.1);
                    acts
                }
            },
            (EngineStage::Reading, EngineEvent::Segment(Err(m))) => {
                self.fail(prefixed("seg: ", m.as_str()))
            },
            (EngineStage::Reading, EngineEvent::Segment(Ok(t))) => {
                self.text.append(t.as_str());
                self.next = self.next + 1;
                if self.next < self.count {
                    let acts = vec![EngineAction::ReadSegment(self.next)];
                    assert(acts.deep_view() =~= expected.1);
                    acts
                } else {
                    self.stage = EngineStage::Done;
                    let acts = vec![EngineAction::Finish(Ok(trim(self.text.as_str())))];
                    assert(acts.deep_view() =~= expected.1);
                    acts
                }
            },
            _ => {
                let acts: Vec<EngineAction<String>> = Vec::new();
                assert(acts.deep_view() =~= expected.1);
                acts
            },
        }
    }
}

} // verus!

use smarttodo::transcription::{
    Engine, EngineAction, EngineEvent, Job, JobAction, JobEvent, JobMode,
};

fn s(t: &str) -> String {
    t.to_string()
}

#[test]
fn hotkey_job_success() {
    let (mut job, first) = Job::start(JobMode::Hotkey);
    assert_eq!(first, vec![JobAction::StopRecorder]);
    assert_eq!(job.step(JobEvent::Stopped), vec![JobAction::LocateModel]);
    assert_eq!(job.step(JobEvent::Located(Ok(()))), vec![JobAction::Transcribe]);
    assert_eq!(
        job.step(JobEvent::Transcribed(Ok(s("buy milk")))),
        vec![JobAction::Print(s("transcribed: buy milk")), JobAction::Deliver(s("buy milk"))]
    );
    assert!(job.is_done());
}

#[test]
fn hotkey_job_model_path_failure() {
    let (mut job, _) = Job::start(JobMode::Hotkey);
    job.step(JobEvent::Stopped);
    assert_eq!(
        job.step(JobEvent::Located(Err(s("no app data dir: x")))),
        vec![JobAction::Log(s("model_path: no app data dir: x")), JobAction::Deliver(s(""))]
    );
    assert!(job.is_done());
    assert_eq!(job.step(JobEvent::Transcribed(Ok(s("late")))), vec![]);
}

#[test]
fn hotkey_job_transcribe_failure() {
    let (mut job, _) = Job::start(JobMode::Hotkey);
    job.step(JobEvent::Stopped);
    job.step(JobEvent::Located(Ok(())));
    assert_eq!(
        job.step(JobEvent::Transcribed(Err(s("full: boom")))),
        vec![JobAction::Log(s("transcribe error: full: boom")), JobAction::Deliver(s(""))]
    );
}

#[test]
fn command_job_success() {
    let (mut job, first) = Job::start(JobMode::Command);
    assert_eq!(first, vec![JobAction::StopRecorder]);
    assert_eq!(
        job.step(JobEvent::Stopped),
        vec![JobAction::AnnounceTranscribing(true), JobAction::LocateModel]
    );
    assert_eq!(job.step(JobEvent::Located(Ok(()))), vec![JobAction::Transcribe]);
    assert_eq!(
        job.step(JobEvent::Transcribed(Ok(s("call mom")))),
        vec![JobAction::AnnounceTranscribing(false), JobAction::Reply(Ok(s("call mom")))]
    );
    assert!(job.is_done());
}

#[test]
fn command_job_failures() {
    let (mut job, _) = Job::start(JobMode::Command);
    job.step(JobEvent::Stopped);
    assert_eq!(
        job.step(JobEvent::Located(Err(s("no app data dir")))),
        vec![JobAction::Reply(Err(s("no app data dir")))]
    );

    let (mut job, _) = Job::start(JobMode::Command);
    job.step(JobEvent::Stopped);
    job.step(JobEvent::Located(Ok(())));
    assert_eq!(
        job.step(JobEvent::JoinFailed(s("panicked"))),
        vec![JobAction::Reply(Err(s("join: panicked")))]
    );

    let (mut job, _) = Job::start(JobMode::Command);
    job.step(JobEvent::Stopped);
    job.step(JobEvent::Located(Ok(())));
    assert_eq!(
        job.step(JobEvent::Transcribed(Err(s("seg: bad")))),
        vec![JobAction::Reply(Err(s("seg: bad")))]
    );
}

#[test]
fn out_of_order_events_are_ignored() {
    let (mut job, _) = Job::start(JobMode::Hotkey);
    assert_eq!(job.step(JobEvent::Located(Ok(()))), vec![]);
    assert_eq!(job.step(JobEvent::Transcribed(Ok(s("x")))), vec![]);
    assert!(!job.is_done());
    assert_eq!(job.step(JobEvent::Stopped), vec![JobAction::LocateModel]);
    assert_eq!(job.step(JobEvent::JoinFailed(s("x"))), vec![]);
}

#[test]
fn empty_recording_gives_empty_transcript() {
    let (e, acts) = Engine::start(0, false);
    assert!(e.is_done());
    assert_eq!(acts, vec![EngineAction::Finish(Ok(s("")))]);
}

#[test]
fn engine_loads_model_once() {
    let (_, acts) = Engine::start(16000, false);
    assert_eq!(acts, vec![EngineAction::Load]);
    let (_, acts) = Engine::start(16000, true);
    assert_eq!(acts, vec![EngineAction::CreateState]);
}

#[test]
fn engine_joins_and_trims_segments() {
    let (mut e, _) = Engine::start(480, false);
    assert_eq!(e.step(EngineEvent::Loaded(Ok(()))), vec![EngineAction::CreateState]);
    assert_eq!(e.step(EngineEvent::StateCreated(Ok(()))), vec![EngineAction::Run]);
    assert_eq!(e.step(EngineEvent::Ran(Ok(()))), vec![EngineAction::CountSegments]);
    assert_eq!(e.step(EngineEvent::Counted(Ok(3))), vec![EngineAction::ReadSegment(0)]);
    assert_eq!(e.step(EngineEvent::Segment(Ok(s(" Buy milk")))), vec![EngineAction::ReadSegment(1)]);
    assert_eq!(e.step(EngineEvent::Segment(Ok(s(" and eggs.")))), vec![EngineAction::ReadSegment(2)]);
    assert_eq!(
        e.step(EngineEvent::Segment(Ok(s(" Tomorrow. ")))),
        vec![EngineAction::Finish(Ok(s("Buy milk and eggs. Tomorrow.")))]
    );
    assert!(e.is_done());
}

#[test]
fn engine_with_no_segments() {
    let (mut e, _) = Engine::start(10, true);
    e.step(EngineEvent::StateCreated(Ok(())));
    e.step(EngineEvent::Ran(Ok(())));
    assert_eq!(e.step(EngineEvent::Counted(Ok(0))), vec![EngineAction::Finish(Ok(s("")))]);
}

#[test]
fn engine_error_messages() {
    let (mut e, _) = Engine::start(1, false);
    assert_eq!(e.step(EngineEvent::PathNotUtf8), vec![EngineAction::Finish(Err(s("non-utf8 model path")))]);

    let (mut e, _) = Engine::start(1, false);
    assert_eq!(
        e.step(EngineEvent::Loaded(Err(s("no file")))),
        vec![EngineAction::Finish(Err(s("whisper load: no file")))]
    );

    let (mut e, _) = Engine::start(1, true);
    assert_eq!(e.step(EngineEvent::NoContextCell), vec![EngineAction::Finish(Err(s("no whisper ctx")))]);

    let (mut e, _) = Engine::start(1, true);
    assert_eq!(e.step(EngineEvent::NoContext), vec![EngineAction::Finish(Err(s("whisper ctx missing")))]);

    let (mut e, _) = Engine::start(1, true);
    assert_eq!(
        e.step(EngineEvent::StateCreated(Err(s("oom")))),
        vec![EngineAction::Finish(Err(s("create_state: oom")))]
    );

    let (mut e, _) = Engine::start(1, true);
    e.step(EngineEvent::StateCreated(Ok(())));
    assert_eq!(e.step(EngineEvent::Ran(Err(s("bad")))), vec![EngineAction::Finish(Err(s("full: bad")))]);

    let (mut e, _) = Engine::start(1, true);
    e.step(EngineEvent::StateCreated(Ok(())));
    e.step(EngineEvent::Ran(Ok(())));
    assert_eq!(e.step(EngineEvent::Counted(Err(s("n")))), vec![EngineAction::Finish(Err(s("n")))]);

    let (mut e, _) = Engine::start(1, true);
    e.step(EngineEvent::StateCreated(Ok(())));
    e.step(EngineEvent::Ran(Ok(())));
    e.step(EngineEvent::Counted(Ok(2)));
    assert_eq!(
        e.step(EngineEvent::Segment(Err(s("utf8")))),
        vec![EngineAction::Finish(Err(s("seg: utf8")))]
    );
    assert_eq!(e.step(EngineEvent::Segment(Ok(s("x")))), vec![]);
}

#[test]
fn decode_settings_for_english_dictation() {
    let d = smarttodo::transcription::decode_settings();
    assert_eq!(d.language, "en");
    assert!(!d.translate);
    assert!(!d.print_progress && !d.print_realtime && !d.print_special && !d.print_timestamps);
    assert!(d.suppress_blank);
    assert_eq!(d.greedy_best_of, 1);
}

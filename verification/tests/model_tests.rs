use smarttodo::model::{
    model_status, Download, DownloadAction, DownloadEvent, MIN_MODEL_BYTES, MODEL_DIR, MODEL_FILE,
    MODEL_URL, PARTIAL_EXTENSION, PROGRESS_EVENT, PROGRESS_STEP, USER_AGENT,
};

fn s(t: &str) -> String {
    t.to_string()
}

#[test]
fn model_status_readiness() {
    let st = model_status(s("/data/models/ggml-base.en.bin"), Some(147_951_465));
    assert!(st.ready);
    assert_eq!(st.path, "/data/models/ggml-base.en.bin");
    assert_eq!(st.size_bytes, Some(147_951_465));

    assert!(!model_status(s("p"), None).ready);
    assert!(!model_status(s("p"), Some(MIN_MODEL_BYTES)).ready);
    assert!(model_status(s("p"), Some(MIN_MODEL_BYTES + 1)).ready);
    assert!(!model_status(s("p"), Some(0)).ready);
}

#[test]
fn constants() {
    assert_eq!(MODEL_FILE, "ggml-base.en.bin");
    assert_eq!(MODEL_URL, "https://huggingface.co/ggerganov/whisper.cpp/resolve/main/ggml-base.en.bin");
    assert_eq!(MODEL_DIR, "models");
    assert_eq!(PARTIAL_EXTENSION, "bin.part");
    assert_eq!(USER_AGENT, "smartTODO/0.1");
    assert_eq!(PROGRESS_EVENT, "model-download-progress");
    assert_eq!(PROGRESS_STEP, 256 * 1024);
}

fn to_reading(d: &mut Download, total: Option<u64>) {
    assert_eq!(d.step(DownloadEvent::Located(Ok((s("/m/f.bin"), true)))), vec![DownloadAction::MakeDir]);
    assert_eq!(d.step(DownloadEvent::DirMade(Ok(()))), vec![DownloadAction::BuildClient]);
    assert_eq!(d.step(DownloadEvent::ClientBuilt(Ok(()))), vec![DownloadAction::Send]);
    assert_eq!(d.step(DownloadEvent::Sent(Ok(()))), vec![DownloadAction::CheckStatus]);
    assert_eq!(d.step(DownloadEvent::StatusChecked(Ok(total))), vec![DownloadAction::CreateTemp]);
    assert_eq!(d.step(DownloadEvent::TempCreated(Ok(()))), vec![DownloadAction::ReadChunk]);
}

fn write(d: &mut Download, n: u64) -> Vec<DownloadAction<String>> {
    assert_eq!(d.step(DownloadEvent::Chunk(Some(Ok(n)))), vec![DownloadAction::WriteChunk]);
    assert!(d.chunk_fits());
    d.step(DownloadEvent::Written(Ok(())))
}

#[test]
fn download_reports_progress_in_steps() {
    let mut d = Download::start();
    to_reading(&mut d, Some(600_000));
    assert_eq!(write(&mut d, 100_000), vec![DownloadAction::ReadChunk]);
    assert_eq!(write(&mut d, 100_000), vec![DownloadAction::ReadChunk]);
    assert_eq!(
        write(&mut d, 100_000),
        vec![DownloadAction::ReportProgress { downloaded: 300_000, total: 600_000 }, DownloadAction::ReadChunk]
    );
    assert_eq!(write(&mut d, 262_144), vec![DownloadAction::ReadChunk]);
    assert_eq!(
        write(&mut d, 37_856),
        vec![DownloadAction::ReportProgress { downloaded: 600_000, total: 600_000 }, DownloadAction::ReadChunk]
    );
    assert_eq!(d.step(DownloadEvent::Chunk(None)), vec![DownloadAction::Flush]);
    assert_eq!(d.step(DownloadEvent::Flushed(Ok(()))), vec![DownloadAction::Rename]);
    assert_eq!(d.step(DownloadEvent::Renamed(Ok(()))), vec![DownloadAction::Finish(Ok(s("/m/f.bin")))]);
    assert!(d.is_done());
}

#[test]
fn unknown_length_counts_as_zero() {
    let mut d = Download::start();
    to_reading(&mut d, None);
    assert_eq!(write(&mut d, 10), vec![DownloadAction::ReadChunk]);
    assert_eq!(d.step(DownloadEvent::Chunk(None)), vec![DownloadAction::Flush]);
}

#[test]
fn empty_body_with_zero_length_reports_nothing_until_written() {
    let mut d = Download::start();
    to_reading(&mut d, Some(0));
    assert_eq!(
        write(&mut d, 0),
        vec![DownloadAction::ReportProgress { downloaded: 0, total: 0 }, DownloadAction::ReadChunk]
    );
}

#[test]
fn no_parent_skips_mkdir() {
    let mut d = Download::start();
    assert_eq!(d.step(DownloadEvent::Located(Ok((s("f.bin"), false)))), vec![DownloadAction::BuildClient]);
}

#[test]
fn download_error_messages() {
    let mut d = Download::start();
    assert_eq!(
        d.step(DownloadEvent::Located(Err(s("no app data dir: x")))),
        vec![DownloadAction::Finish(Err(s("no app data dir: x")))]
    );
    assert!(d.is_done());
    assert_eq!(d.step(DownloadEvent::DirMade(Ok(()))), vec![]);

    let mut d = Download::start();
    d.step(DownloadEvent::Located(Ok((s("/m/f"), true))));
    assert_eq!(d.step(DownloadEvent::DirMade(Err(s("denied")))), vec![DownloadAction::Finish(Err(s("mkdir: denied")))]);

    let mut d = Download::start();
    d.step(DownloadEvent::Located(Ok((s("/m/f"), false))));
    assert_eq!(d.step(DownloadEvent::ClientBuilt(Err(s("tls")))), vec![DownloadAction::Finish(Err(s("tls")))]);

    let mut d = Download::start();
    d.step(DownloadEvent::Located(Ok((s("/m/f"), false))));
    d.step(DownloadEvent::ClientBuilt(Ok(())));
    assert_eq!(d.step(DownloadEvent::Sent(Err(s("dns")))), vec![DownloadAction::Finish(Err(s("request failed: dns")))]);

    let mut d = Download::start();
    d.step(DownloadEvent::Located(Ok((s("/m/f"), false))));
    d.step(DownloadEvent::ClientBuilt(Ok(())));
    d.step(DownloadEvent::Sent(Ok(())));
    assert_eq!(d.step(DownloadEvent::StatusChecked(Err(s("404")))), vec![DownloadAction::Finish(Err(s("bad status: 404")))]);

    let mut d = Download::start();
    d.step(DownloadEvent::Located(Ok((s("/m/f"), false))));
    d.step(DownloadEvent::ClientBuilt(Ok(())));
    d.step(DownloadEvent::Sent(Ok(())));
    d.step(DownloadEvent::StatusChecked(Ok(Some(5))));
    assert_eq!(d.step(DownloadEvent::TempCreated(Err(s("ro")))), vec![DownloadAction::Finish(Err(s("create tmp: ro")))]);

    let mut d = Download::start();
    to_reading(&mut d, Some(5));
    assert_eq!(d.step(DownloadEvent::Chunk(Some(Err(s("reset"))))), vec![DownloadAction::Finish(Err(s("chunk: reset")))]);

    let mut d = Download::start();
    to_reading(&mut d, Some(5));
    d.step(DownloadEvent::Chunk(Some(Ok(5))));
    assert_eq!(d.step(DownloadEvent::Written(Err(s("full")))), vec![DownloadAction::Finish(Err(s("write: full")))]);

    let mut d = Download::start();
    to_reading(&mut d, Some(5));
    d.step(DownloadEvent::Chunk(None));
    assert_eq!(d.step(DownloadEvent::Flushed(Err(s("io")))), vec![DownloadAction::Finish(Err(s("io")))]);

    let mut d = Download::start();
    to_reading(&mut d, Some(5));
    d.step(DownloadEvent::Chunk(None));
    d.step(DownloadEvent::Flushed(Ok(())));
    assert_eq!(d.step(DownloadEvent::Renamed(Err(s("xdev")))), vec![DownloadAction::Finish(Err(s("rename: xdev")))]);
}

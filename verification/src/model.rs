use vstd::prelude::*;

use crate::text::prefixed;
use crate::transcription::{outcome_view, status_view};

verus! {

/// The speech model's file name.
pub const MODEL_FILE: &'static str = "ggml-base.en.bin";

/// Where the speech model is downloaded from.
pub const MODEL_URL: &'static str = "https://huggingface.co/ggerganov/whisper.cpp/resolve/main/ggml-base.en.bin";

/// The directory, under the application's data directory, that holds models.
pub const MODEL_DIR: &'static str = "models";

/// The extension under which a download in progress is written, in place of
/// the model file's own.
pub const PARTIAL_EXTENSION: &'static str = "bin.part";

/// The user agent of download requests.
pub const USER_AGENT: &'static str = "smartTODO/0.1";

/// The event that reports download progress.
pub const PROGRESS_EVENT: &'static str = "model-download-progress";

/// A model file counts as present only above this many bytes.
pub const MIN_MODEL_BYTES: u64 = 1_000_000;

/// Download progress is reported once more than this many bytes arrived
/// since the last report.
pub const PROGRESS_STEP: u64 = 262144;

/// Whether the speech model is ready, where it lives, and how large its file is.
pub struct ModelStatus {
    pub ready: bool,
    pub path: String,
    pub size_bytes: Option<u64>,
}

/// Whether a model file of this size, if any, counts as present.
pub open spec fn is_ready(size_bytes: Option<u64>) -> bool {
    match size_bytes {
        Some(s) => s > MIN_MODEL_BYTES,
        None => false,
    }
}

/// The status of the model file at `path`, whose size is `size_bytes` when
/// the file exists.
pub fn model_status(path: String, size_bytes: Option<u64>) -> (st: ModelStatus)
    ensures
        st.ready == is_ready(size_bytes),
        st.path@ == path@,
        st.size_bytes == size_bytes,
{
    let ready = match size_bytes {
        Some(s) => s > MIN_MODEL_BYTES,
        None => false,
    };
    ModelStatus { ready, path, size_bytes }
}


// ---------------------------------------------------------------------------
// Downloading the model.
// ---------------------------------------------------------------------------

#[derive(Debug, Clone, Copy, PartialEq, Eq, Structural)]
pub enum DownloadStage {
    Locating,
    MakingDir,
    BuildingClient,
    Sending,
    CheckingStatus,
    CreatingTemp,
    Reading,
    Writing,
    Flushing,
    Renaming,
    Done,
}

/// A download as the contracts see it: the stage, the model file's path,
/// the bytes written so far, the count last reported, the expected total
/// (0 when unknown) and the size of the chunk being written.
pub struct DownloadView {
    pub stage: DownloadStage,
    pub dest: Seq<char>,
    pub downloaded: u64,
    pub reported: u64,
    pub total: u64,
    pub pending: u64,
}

/// What the embedding program reports back to a download.
#[derive(Debug, PartialEq, Eq)]
pub enum DownloadEvent<S> {
    /// The model file's path was looked up: its display form, and whether it
    /// has a parent directory.
    Located(Result<(S, bool), S>),
    DirMade(Result<(), S>),
    ClientBuilt(Result<(), S>),
    Sent(Result<(), S>),
    /// The response status was checked; on success, the announced length.
    StatusChecked(Result<Option<u64>, S>),
    TempCreated(Result<(), S>),
    /// The next chunk of the body arrived, with its length, or the body ended.
    Chunk(Option<Result<u64, S>>),
    Written(Result<(), S>),
    Flushed(Result<(), S>),
    Renamed(Result<(), S>),
}

/// What a download asks the embedding program to do.
#[derive(Debug, PartialEq, Eq)]
pub enum DownloadAction<S> {
    /// Create the model file's parent directory and its ancestors.
    MakeDir,
    BuildClient,
    /// Send the request for the model.
    Send,
    CheckStatus,
    /// Create the file that receives the body while it arrives.
    CreateTemp,
    ReadChunk,
    /// Append the chunk that arrived to that file.
    WriteChunk,
    /// Emit the progress event with these counts.
    ReportProgress { downloaded: u64, total: u64 },
    Flush,
    /// Move the finished file to the model's path.
    Rename,
    /// The download is over, with the model's path or an error.
    Finish(Result<S, S>),
}

impl DeepView for DownloadEvent<String> {
    type V = DownloadEvent<Seq<char>>;

    open spec fn deep_view(&self) -> DownloadEvent<Seq<char>> {
        match self {
            DownloadEvent::Located(r) => DownloadEvent::Located(
                match r {
                    Ok((d, p)) => Ok((d@, *p)),
                    Err(e) => Err(e@),
                },
            ),
            DownloadEvent::DirMade(r) => DownloadEvent::DirMade(status_view(*r)),
            DownloadEvent::ClientBuilt(r) => DownloadEvent::ClientBuilt(status_view(*r)),
            DownloadEvent::Sent(r) => DownloadEvent::Sent(status_view(*r)),
            DownloadEvent::StatusChecked(r) => DownloadEvent::StatusChecked(
                match r {
                    Ok(n) => Ok(*n),
                    Err(e) => Err(e@),
                },
            ),
            DownloadEvent::TempCreated(r) => DownloadEvent::TempCreated(status_view(*r)),
            DownloadEvent::Chunk(c) => DownloadEvent::Chunk(
                match c {
                    None => None,
                    Some(Ok(n)) => Some(Ok(*n)),
                    Some(Err(e)) => Some(Err(e@)),
                },
            ),
            DownloadEvent::Written(r) => DownloadEvent::Written(status_view(*r)),
            DownloadEvent::Flushed(r) => DownloadEvent::Flushed(status_view(*r)),
            DownloadEvent::Renamed(r) => DownloadEvent::Renamed(status_view(*r)),
        }
    }
}

impl DeepView for DownloadAction<String> {
    type V = DownloadAction<Seq<char>>;

    open spec fn deep_view(&self) -> DownloadAction<Seq<char>> {
        match self {
            DownloadAction::MakeDir => DownloadAction::MakeDir,
            DownloadAction::BuildClient => DownloadAction::BuildClient,
            DownloadAction::Send => DownloadAction::Send,
            DownloadAction::CheckStatus => DownloadAction::CheckStatus,
            DownloadAction::CreateTemp => DownloadAction::CreateTemp,
            DownloadAction::ReadChunk => DownloadAction::ReadChunk,
            DownloadAction::WriteChunk => DownloadAction::WriteChunk,
            DownloadAction::ReportProgress { downloaded, total } => DownloadAction::ReportProgress {
                downloaded: *downloaded,
                total: *total,
            },
            DownloadAction::Flush => DownloadAction::Flush,
            DownloadAction::Rename => DownloadAction::Rename,
            DownloadAction::Finish(r) => DownloadAction::Finish(outcome_view(*r)),
        }
    }
}

pub open spec fn download_start() -> DownloadView {
    DownloadView {
        stage: DownloadStage::Locating,
        dest: Seq::empty(),
        downloaded: 0,
        reported: 0,
        total: 0,
        pending: 0,
    }
}

/// The counts of a download can take in the chunk being written.
pub open spec fn chunk_fits(s: DownloadView) -> bool {
    s.downloaded + s.pending <= u64::MAX
}

/// The last progress report is never more than `PROGRESS_STEP` bytes behind.
pub open spec fn progress_close(s: DownloadView) -> bool {
    s.reported <= s.downloaded && s.downloaded - s.reported <= PROGRESS_STEP
}

/// Whether a progress report goes out once `downloaded` bytes are written.
pub open spec fn reports_at(downloaded: u64, reported: u64, total: u64) -> bool {
    downloaded - reported > PROGRESS_STEP || downloaded == total
}

pub open spec fn download_goto(s: DownloadView, stage: DownloadStage, a: DownloadAction<Seq<char>>) -> (
    DownloadView,
    Seq<DownloadAction<Seq<char>>>,
) {
    (DownloadView { stage, ..s }, seq![a])
}

pub open spec fn download_fail(s: DownloadView, m: Seq<char>) -> (DownloadView, Seq<
    DownloadAction<Seq<char>>,
>) {
    download_goto(s, DownloadStage::Done, DownloadAction::Finish(Err(m)))
}

/// One step of a download: the next state and the actions, in order.
pub open spec fn download_step(s: DownloadView, e: DownloadEvent<Seq<char>>) -> (DownloadView, Seq<
    DownloadAction<Seq<char>>,
>) {
    match (s.stage, e) {
        (DownloadStage::Locating, DownloadEvent::Located(Err(m))) => download_fail(s, m),
        (DownloadStage::Locating, DownloadEvent::Located(Ok((dest, has_parent)))) => {
            let s1 = DownloadView { dest, ..s };
            if has_parent {
                download_goto(s1, DownloadStage::MakingDir, DownloadAction::MakeDir)
            } else {
                download_goto(s1, DownloadStage::BuildingClient, DownloadAction::BuildClient)
            }
        },
        (DownloadStage::MakingDir, DownloadEvent::DirMade(Err(m))) => download_fail(
            s,
            "mkdir: "@ + m,
        ),
        (DownloadStage::MakingDir, DownloadEvent::DirMade(Ok(()))) => download_goto(
            s,
            DownloadStage::BuildingClient,
            DownloadAction::BuildClient,
        ),
        (DownloadStage::BuildingClient, DownloadEvent::ClientBuilt(Err(m))) => download_fail(s, m),
        (DownloadStage::BuildingClient, DownloadEvent::ClientBuilt(Ok(()))) => download_goto(
            s,
            DownloadStage::Sending,
            DownloadAction::Send,
        ),
        (DownloadStage::Sending, DownloadEvent::Sent(Err(m))) => download_fail(
            s,
            "request failed: "@ + m,
        ),
        (DownloadStage::Sending, DownloadEvent::Sent(Ok(()))) => download_goto(
            s,
            DownloadStage::CheckingStatus,
            DownloadAction::CheckStatus,
        ),
        (DownloadStage::CheckingStatus, DownloadEvent::StatusChecked(Err(m))) => download_fail(
            s,
            "bad status: "@ + m,
        ),
        (DownloadStage::CheckingStatus, DownloadEvent::StatusChecked(Ok(len))) => {
            let total = match len {
                Some(n) => n,
                None => 0,
            };
            download_goto(
                DownloadView { total, ..s },
                DownloadStage::CreatingTemp,
                DownloadAction::CreateTemp,
            )
        },
        (DownloadStage::CreatingTemp, DownloadEvent::TempCreated(Err(m))) => download_fail(
            s,
            "create tmp: "@ + m,
        ),
        (DownloadStage::CreatingTemp, DownloadEvent::TempCreated(Ok(()))) => download_goto(
            s,
            DownloadStage::Reading,
            DownloadAction::ReadChunk,
        ),
        (DownloadStage::Reading, DownloadEvent::Chunk(Some(Err(m)))) => download_fail(
            s,
            "chunk: "@ + m,
        ),
        (DownloadStage::Reading, DownloadEvent::Chunk(Some(Ok(n)))) => download_goto(
            DownloadView { pending: n, ..s },
            DownloadStage::Writing,
            DownloadAction::WriteChunk,
        ),
        (DownloadStage::Reading, DownloadEvent::Chunk(None)) => download_goto(
            s,
            DownloadStage::Flushing,
            DownloadAction::Flush,
        ),
        (DownloadStage::Writing, DownloadEvent::Written(Err(m))) => download_fail(
            s,
            "write: "@ + m,
        ),
        (DownloadStage::Writing, DownloadEvent::Written(Ok(()))) => {
            let d = (s.downloaded + s.pending) as u64;
            if reports_at(d, s.reported, s.total) {
                (
                    DownloadView {
                        stage: DownloadStage::Reading,
                        downloaded: d,
                        reported: d,
                        pending: 0,
                        ..s
                    },
                    seq![
                        DownloadAction::ReportProgress { downloaded: d, total: s.total },
                        DownloadAction::ReadChunk,
                    ],
                )
            } else {
                (
                    DownloadView { stage: DownloadStage::Reading, downloaded: d, pending: 0, ..s },
                    seq![DownloadAction::ReadChunk],
                )
            }
        },
        (DownloadStage::Flushing, DownloadEvent::Flushed(Err(m))) => download_fail(s, m),
        (DownloadStage::Flushing, DownloadEvent::Flushed(Ok(()))) => download_goto(
            s,
            DownloadStage::Renaming,
            DownloadAction::Rename,
        ),
        (DownloadStage::Renaming, DownloadEvent::Renamed(Err(m))) => download_fail(
            s,
            "rename: "@ + m,
        ),
        (DownloadStage::Renaming, DownloadEvent::Renamed(Ok(()))) => download_goto(
            s,
            DownloadStage::Done,
            DownloadAction::Finish(Ok(s.dest)),
        ),
        _ => (s, Seq::empty()),
    }
}


/// A download taking in a series of events: the state it ends in and all
/// the actions it asked for, in order.
pub open spec fn download_run(s: DownloadView, events: Seq<DownloadEvent<Seq<char>>>) -> (
    DownloadView,
    Seq<DownloadAction<Seq<char>>>,
)
    decreases events.len(),
{
    if events.len() == 0 {
        (s, Seq::empty())
    } else {
        let (s1, a1) = download_step(s, events[0]);
        let (s2, a2) = download_run(s1, events.drop_first());
        (s2, a1 + a2)
    }
}

/// The sum of chunk sizes.
pub open spec fn total_size(chunks: Seq<u64>) -> nat
    decreases chunks.len(),
{
    if chunks.len() == 0 {
        0
    } else {
        chunks[0] as nat + total_size(chunks.drop_first())
    }
}

/// The events of receiving and writing each of `chunks`.
pub open spec fn chunk_events(chunks: Seq<u64>) -> Seq<DownloadEvent<Seq<char>>>
    decreases chunks.len(),
{
    if chunks.len() == 0 {
        Seq::empty()
    } else {
        seq![DownloadEvent::Chunk(Some(Ok(chunks[0]))), DownloadEvent::Written(Ok(()))]
            + chunk_events(chunks.drop_first())
    }
}

proof fn lemma_download_run_append(
    s: DownloadView,
    a: Seq<DownloadEvent<Seq<char>>>,
    b: Seq<DownloadEvent<Seq<char>>>,
)
    ensures
        download_run(s, a + b) == ({
            let (s1, x) = download_run(s, a);
            let (s2, y) = download_run(s1, b);
            (s2, x + y)
        }),
    decreases a.len(),
{
    if a.len() == 0 {
        assert(a + b =~= b);
        assert(download_run(s, a).1 + download_run(s, b).1 =~= download_run(s, b).1);
    } else {
        let (s1, a1) = download_step(s, a[0]);
        assert((a + b)[0] == a[0]);
        assert((a + b).drop_first() =~= a.drop_first() + b);
        lemma_download_run_append(s1, a.drop_first(), b);
        let (t, x) = download_run(s1, a.drop_first());
        let (u, y) = download_run(t, b);
        assert(a1 + (x + y) =~= (a1 + x) + y);
    }
}

/// No step of a download lets the last progress report fall more than
/// `PROGRESS_STEP` bytes behind what was written.
pub proof fn lemma_progress_stays_close(s: DownloadView, e: DownloadEvent<Seq<char>>)
    requires
        progress_close(s),
        e matches DownloadEvent::Written(Ok(_)) ==> chunk_fits(s),
    ensures
        progress_close(download_step(s, e).0),
{
}

/// Writing the chunk that completes the announced size always reports it.
pub proof fn lemma_completion_reported(s: DownloadView)
    requires
        s.stage == DownloadStage::Writing,
        s.downloaded + s.pending == s.total,
    ensures
        download_step(s, DownloadEvent::Written(Ok(()))).1[0] == (DownloadAction::<
            Seq<char>,
        >::ReportProgress { downloaded: s.total, total: s.total }),
{
}

/// Progress reports carry the running count: every report a step emits
/// gives the bytes written so far (the count after the step) and the
/// announced length. Writing a chunk adds its size to the count; no other
/// event changes it.
pub proof fn lemma_reports_carry_running_count(s: DownloadView, e: DownloadEvent<Seq<char>>)
    requires
        e matches DownloadEvent::Written(Ok(_)) ==> chunk_fits(s),
    ensures
        ({
            let (n, acts) = download_step(s, e);
            &&& forall|i: int|
                0 <= i < acts.len() ==> (#[trigger] acts[i] matches DownloadAction::ReportProgress {
                    downloaded,
                    total,
                } ==> downloaded == n.downloaded && total == n.total)
            &&& (s.stage == DownloadStage::Writing && e matches DownloadEvent::Written(Ok(_)))
                ==> n.downloaded == s.downloaded + s.pending
            &&& !(s.stage == DownloadStage::Writing && e matches DownloadEvent::Written(Ok(_)))
                ==> n.downloaded == s.downloaded
            &&& !(s.stage == DownloadStage::CheckingStatus) ==> n.total == s.total
        }),
{
}

/// Once more than `PROGRESS_STEP` bytes arrived since the last report,
/// writing reports the new count.
pub proof fn lemma_large_progress_reported(s: DownloadView)
    requires
        s.stage == DownloadStage::Writing,
        chunk_fits(s),
        s.downloaded + s.pending - s.reported > PROGRESS_STEP,
    ensures
        download_step(s, DownloadEvent::Written(Ok(()))).1[0] == (DownloadAction::<
            Seq<char>,
        >::ReportProgress { downloaded: (s.downloaded + s.pending) as u64, total: s.total }),
{
}

/// A finished download takes in nothing more.
pub proof fn lemma_download_done_is_final(s: DownloadView, e: DownloadEvent<Seq<char>>)
    requires
        s.stage == DownloadStage::Done,
    ensures
        download_step(s, e) == (s, Seq::<DownloadAction<Seq<char>>>::empty()),
{
}

/// Receiving and writing chunks adds up their sizes and keeps reading.
pub proof fn lemma_chunks_add_up(s: DownloadView, chunks: Seq<u64>)
    requires
        s.stage == DownloadStage::Reading,
        s.downloaded + total_size(chunks) <= u64::MAX,
    ensures
        download_run(s, chunk_events(chunks)).0.stage == DownloadStage::Reading,
        download_run(s, chunk_events(chunks)).0.downloaded == s.downloaded + total_size(chunks),
        download_run(s, chunk_events(chunks)).0.dest == s.dest,
    decreases chunks.len(),
{
    if chunks.len() == 0 {
    } else {
        let first = seq![DownloadEvent::Chunk(Some(Ok(chunks[0]))), DownloadEvent::Written(Ok(()))];
        let rest = chunk_events(chunks.drop_first());
        lemma_download_run_append(s, first, rest);
        reveal_with_fuel(download_run, 3);
        assert(first.drop_first().drop_first() =~= Seq::<DownloadEvent<Seq<char>>>::empty());
        assert(first.drop_first()[0] == first[1]);
        let s1 = download_run(s, first).0;
        assert(s1.downloaded == s.downloaded + chunks[0]);
        lemma_chunks_add_up(s1, chunks.drop_first());
    }
}

/// The events of a download in which every step works.
pub open spec fn smooth_download(dest: Seq<char>, total: Option<u64>, chunks: Seq<u64>) -> Seq<
    DownloadEvent<Seq<char>>,
> {
    seq![
        DownloadEvent::Located(Ok((dest, true))),
        DownloadEvent::DirMade(Ok(())),
        DownloadEvent::ClientBuilt(Ok(())),
        DownloadEvent::Sent(Ok(())),
        DownloadEvent::StatusChecked(Ok(total)),
        DownloadEvent::TempCreated(Ok(())),
    ] + chunk_events(chunks) + seq![
        DownloadEvent::Chunk(None),
        DownloadEvent::Flushed(Ok(())),
        DownloadEvent::Renamed(Ok(())),
    ]
}

/// When every step works, the download ends with the model's path, having
/// written every byte that arrived.
pub proof fn lemma_smooth_download(dest: Seq<char>, total: Option<u64>, chunks: Seq<u64>)
    requires
        total_size(chunks) <= u64::MAX,
    ensures
        ({
            let r = download_run(download_start(), smooth_download(dest, total, chunks));
            &&& r.0.stage == DownloadStage::Done
            &&& r.0.downloaded == total_size(chunks)
            &&& r.1.len() > 0
            &&& r.1.last() == DownloadAction::Finish(Ok(dest))
        }),
{
    let head = seq![
        DownloadEvent::Located(Ok((dest, true))),
        DownloadEvent::DirMade(Ok(())),
        DownloadEvent::ClientBuilt(Ok(())),
        DownloadEvent::Sent(Ok(())),
        DownloadEvent::StatusChecked(Ok(total)),
        DownloadEvent::TempCreated(Ok(())),
    ];
    let body = chunk_events(chunks);
    let tail = seq![
        DownloadEvent::Chunk(None),
        DownloadEvent::Flushed(Ok(())),
        DownloadEvent::Renamed(Ok(())),
    ];
    lemma_download_run_append(download_start(), head + body, tail);
    lemma_download_run_append(download_start(), head, body);
    let s0 = download_start();
    let h1 = head.subrange(1, 6);
    let h2 = head.subrange(2, 6);
    let h3 = head.subrange(3, 6);
    let h4 = head.subrange(4, 6);
    let h5 = head.subrange(5, 6);
    let h6 = head.subrange(6, 6);
    assert(head.drop_first() =~= h1);
    assert(h1.drop_first() =~= h2);
    assert(h2.drop_first() =~= h3);
    assert(h3.drop_first() =~= h4);
    assert(h4.drop_first() =~= h5);
    assert(h5.drop_first() =~= h6);
    let s1 = download_step(s0, head[0]).0;
    let s2 = download_step(s1, h1[0]).0;
    let s3 = download_step(s2, h2[0]).0;
    let s4 = download_step(s3, h3[0]).0;
    let s5 = download_step(s4, h4[0]).0;
    let s6 = download_step(s5, h5[0]).0;
    assert(download_run(s6, h6).0 == s6);
    assert(download_run(s5, h5).0 == s6);
    assert(download_run(s4, h4).0 == s6);
    assert(download_run(s3, h3).0 == s6);
    assert(download_run(s2, h2).0 == s6);
    assert(download_run(s1, h1).0 == s6);
    assert(download_run(s0, head).0 == s6);
    assert(s6.stage == DownloadStage::Reading);
    assert(s6.dest == dest);
    assert(s6.downloaded == 0);
    lemma_chunks_add_up(s6, chunks);
    let s7 = download_run(s6, body).0;
    let t1 = tail.subrange(1, 3);
    let t2 = tail.subrange(2, 3);
    let t3 = tail.subrange(3, 3);
    assert(tail.drop_first() =~= t1);
    assert(t1.drop_first() =~= t2);
    assert(t2.drop_first() =~= t3);
    let (u1, b1) = download_step(s7, tail[0]);
    let (u2, b2) = download_step(u1, t1[0]);
    let (u3, b3) = download_step(u2, t2[0]);
    assert(download_run(u3, t3) == (u3, Seq::<DownloadAction<Seq<char>>>::empty()));
    assert(download_run(u2, t2) == (u3, b3 + Seq::<DownloadAction<Seq<char>>>::empty()));
    assert(download_run(u1, t1).0 == u3);
    assert(download_run(s7, tail).0 == u3);
    assert(b3 =~= seq![DownloadAction::Finish(Ok(dest))]);
    let r = download_run(s7, tail);
    assert(r.1 =~= b1 + (b2 + (b3 + Seq::<DownloadAction<Seq<char>>>::empty())));
}

/// A download of the speech model: find where it goes, fetch it into a
/// temporary file while reporting progress, then move it into place.
pub struct Download {
    stage: DownloadStage,
    dest: String,
    downloaded: u64,
    reported: u64,
    total: u64,
    pending: u64,
}

impl View for Download {
    type V = DownloadView;

    closed spec fn view(&self) -> DownloadView {
        DownloadView {
            stage: self.stage,
            dest: self.dest@,
            downloaded: self.downloaded,
            reported: self.reported,
            total: self.total,
            pending: self.pending,
        }
    }
}

impl Download {
    /// A new download; first the model's path is looked up.
    pub fn start() -> (d: Download)
        ensures
            d@ == download_start(),
    {
        Download {
            stage: DownloadStage::Locating,
            dest: String::new(),
            downloaded: 0,
            reported: 0,
            total: 0,
            pending: 0,
        }
    }

    /// Whether the download has finished.
    pub fn is_done(&self) -> (b: bool)
        ensures
            b == (self@.stage == DownloadStage::Done),
    {
        matches!(self.stage, DownloadStage::Done)
    }

    /// Whether the counts can take in the chunk being written.
    pub fn chunk_fits(&self) -> (b: bool)
        ensures
            b == chunk_fits(self@),
    {
        self.pending <= u64::MAX - self.downloaded
    }

    fn goto(&mut self, stage: DownloadStage, a: DownloadAction<String>) -> (acts: Vec<
        DownloadAction<String>,
    >)
        ensures
            final(self)@ == download_goto(old(self)@, stage, a.deep_view()).0,
            acts.deep_view() == download_goto(old(self)@, stage, a.deep_view()).1,
    {
        self.stage = stage;
        let ghost av = a.deep_view();
        let acts = vec![a];
        assert(acts.deep_view() =~= seq![av]);
        acts
    }

    fn fail(&mut self, m: String) -> (acts: Vec<DownloadAction<String>>)
        ensures
            final(self)@ == download_fail(old(self)@, m@).0,
            acts.deep_view() == download_fail(old(self)@, m@).1,
    {
        self.goto(DownloadStage::Done, DownloadAction::Finish(Err(m)))
    }

    /// Take in what the embedding program reports; returns what to do next.
    pub fn step(&mut self, event: DownloadEvent<String>) -> (acts: Vec<DownloadAction<String>>)
        requires
            event matches DownloadEvent::Written(Ok(_)) ==> chunk_fits(old(self)@),
            progress_close(old(self)@),
        ensures
            progress_close(final(self)@),
            final(self)@ == download_step(old(self)@, event.deep_view()).0,
            acts.deep_view() == download_step(old(self)@, event.deep_view()).1,
    {
        let ghost expected = download_step(self@, event.deep_view());
        match (self.stage, event) {
            (DownloadStage::Locating, DownloadEvent::Located(Err(m))) => self.fail(m),
            (DownloadStage::Locating, DownloadEvent::Located(Ok((dest, has_parent)))) => {
                self.dest = dest;
                if has_parent {
                    self.goto(DownloadStage::MakingDir, DownloadAction::MakeDir)
                } else {
                    self.goto(DownloadStage::BuildingClient, DownloadAction::BuildClient)
                }
            },
            (DownloadStage::MakingDir, DownloadEvent::DirMade(Err(m))) => {
                self.fail(prefixed("mkdir: ", m.as_str()))
            },
            (DownloadStage::MakingDir, DownloadEvent::DirMade(Ok(()))) => {
                self.goto(DownloadStage::BuildingClient, DownloadAction::BuildClient)
            },
            (DownloadStage::BuildingClient, DownloadEvent::ClientBuilt(Err(m))) => self.fail(m),
            (DownloadStage::BuildingClient, DownloadEvent::ClientBuilt(Ok(()))) => {
                self.goto(DownloadStage::Sending, DownloadAction::Send)
            },
            (DownloadStage::Sending, DownloadEvent::Sent(Err(m))) => {
                self.fail(prefixed("request failed: ", m.as_str()))
            },
            (DownloadStage::Sending, DownloadEvent::Sent(Ok(()))) => {
                self.goto(DownloadStage::CheckingStatus, DownloadAction::CheckStatus)
            },
            (DownloadStage::CheckingStatus, DownloadEvent::StatusChecked(Err(m))) => {
                self.fail(prefixed("bad status: ", m.as_str()))
            },
            (DownloadStage::CheckingStatus, DownloadEvent::StatusChecked(Ok(len))) => {
                self.total = match len {
                    Some(n) => n,
                    None => 0,
                };
                self.goto(DownloadStage::CreatingTemp, DownloadAction::CreateTemp)
            },
            (DownloadStage::CreatingTemp, DownloadEvent::TempCreated(Err(m))) => {
                self.fail(prefixed("create tmp: ", m.as_str()))
            },
            (DownloadStage::CreatingTemp, DownloadEvent::TempCreated(Ok(()))) => {
                self.goto(DownloadStage::Reading, DownloadAction::ReadChunk)
            },
            (DownloadStage::Reading, DownloadEvent::Chunk(Some(Err(m)))) => {
                self.fail(prefixed("chunk: ", m.as_str()))
            },
            (DownloadStage::Reading, DownloadEvent::Chunk(Some(Ok(n)))) => {
                self.pending = n;
                self.goto(DownloadStage::Writing, DownloadAction::WriteChunk)
            },
            (DownloadStage::Reading, DownloadEvent::Chunk(None)) => {
                self.goto(DownloadStage::Flushing, DownloadAction::Flush)
            },
            (DownloadStage::Writing, DownloadEvent::Written(Err(m))) => {
                self.fail(prefixed("write: ", m.as_str()))
            },
            (DownloadStage::Writing, DownloadEvent::Written(Ok(()))) => {
                self.downloaded = self.downloaded + self.pending;
                self.pending = 0;
                self.stage = DownloadStage::Reading;
                let mut acts: Vec<DownloadAction<String>> = Vec::new();
                if self.downloaded - self.reported > PROGRESS_STEP || self.downloaded == self.total {
                    self.reported = self.downloaded;
                    acts.push(
                        DownloadAction::ReportProgress {
                            downloaded: self.downloaded,
                            total: self.total,
                        },
                    );
                }
                acts.push(DownloadAction::ReadChunk);
                assert(acts.deep_view() =~= expected.1);
                acts
            },
            (DownloadStage::Flushing, DownloadEvent::Flushed(Err(m))) => self.fail(m),
            (DownloadStage::Flushing, DownloadEvent::Flushed(Ok(()))) => {
                self.goto(DownloadStage::Renaming, DownloadAction::Rename)
            },
            (DownloadStage::Renaming, DownloadEvent::Renamed(Err(m))) => {
                self.fail(prefixed("rename: ", m.as_str()))
            },
            (DownloadStage::Renaming, DownloadEvent::Renamed(Ok(()))) => {
                let dest = self.dest.clone();
                self.goto(DownloadStage::Done, DownloadAction::Finish(Ok(dest)))
            },
            _ => {
                let acts: Vec<DownloadAction<String>> = Vec::new();
                assert(acts.deep_view() =~= expected.1);
                acts
            },
        }
    }
}

} // verus!

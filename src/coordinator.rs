//! The download coordinator's decisions. A download is a session that moves
//! through a few stages; the caller performs each action it asks for (a
//! lookup, a probe, a directory, a file, a store write, the launch of the
//! workers) and hands back what came of it as the next event.
use vstd::prelude::*;

use crate::aggregate::aggregate_status;
use crate::files::DownloadStatus;
use crate::planner::{lemma_plan_covers, plan, plan_chunks, PlanError};
use crate::storage::{Chunk, StoreError};
use crate::text::{all_digits, append_decimal, decimal, numeral_value, parse_decimal};

verus! {

/// Why a download could not be started.
#[derive(Clone, Copy, Debug, PartialEq, Eq, Structural)]
pub enum DownloadError {
    /// The server gave no usable length for the resource.
    SizeUnknown,
    /// The destination directory or file could not be made.
    DestinationUnwritable,
    /// Another record already holds this URL or destination path.
    DuplicateKey,
    /// The store failed.
    StorageError,
}

/// The length that a `Content-Length` value gives: a non-empty run of
/// decimal digits whose value fits in 64 bits.
pub open spec fn content_length_value(header: Option<Seq<char>>) -> Option<u64> {
    match header {
        Some(t) => if t.len() > 0 && all_digits(t) && numeral_value(t) <= u64::MAX {
            Some(numeral_value(t) as u64)
        } else {
            None
        },
        None => None,
    }
}

/// The resource's length from the probe's `Content-Length` header; a missing
/// or malformed header leaves the size unknown.
pub fn parse_content_length(header: Option<&str>) -> (r: Result<u64, DownloadError>)
    ensures
        r == (match content_length_value(
            match header {
                Some(h) => Some(h@),
                None => None,
            },
        ) {
            Some(n) => Ok(n),
            None => Err(DownloadError::SizeUnknown),
        }),
{
    match header {
        Some(h) => match parse_decimal(h) {
            Some(n) => Ok(n),
            None => Err(DownloadError::SizeUnknown),
        },
        None => Err(DownloadError::SizeUnknown),
    }
}

/// The value of the `Range` header that asks for `[start, end]`.
pub open spec fn range_value(start: u64, end: u64) -> Seq<char> {
    "bytes="@ + decimal(start as nat) + "-"@ + decimal(end as nat)
}

/// The `Range` header value for one chunk: `bytes=<start>-<end>`, both ends
/// inclusive.
pub fn range_header(chunk: &Chunk) -> (r: String)
    ensures
        r@ == range_value(chunk.start, chunk.end),
{
    let mut r = String::from_str("bytes=");
    append_decimal(&mut r, chunk.start);
    r.append("-");
    append_decimal(&mut r, chunk.end);
    r
}

/// Whether a fetched body can be written for `chunk`: the request succeeded
/// and the body is exactly the chunk's length (a server that ignored the
/// range fails this chunk only).
pub fn accepts_body(chunk: &Chunk, fetched: bool, body_len: u64) -> (r: bool)
    requires
        chunk.wf(),
    ensures
        r == (fetched && body_len == chunk.len()),
{
    fetched && body_len > 0 && body_len - 1 == chunk.end - chunk.start
}

/// The chunk after its fetch: `Finished` when its bytes were written, and
/// `Failed` otherwise.
pub fn settle_chunk(chunk: Chunk, written: bool) -> (r: Chunk)
    ensures
        r == (Chunk {
            status: if written {
                DownloadStatus::Finished
            } else {
                DownloadStatus::Failed
            },
            ..chunk
        }),
{
    Chunk {
        status: if written {
            DownloadStatus::Finished
        } else {
            DownloadStatus::Failed
        },
        ..chunk
    }
}

/// The cumulative progress of one download, as reported to the observer.
#[derive(Clone, Copy, Debug, PartialEq, Eq, Structural)]
pub struct ProgressTally {
    pub record_id: i64,
    pub total_size: u64,
    pub downloaded: u64,
}

impl ProgressTally {
    pub open spec fn wf(&self) -> bool {
        self.downloaded <= self.total_size
    }

    /// No bytes yet of a resource of `total_size` bytes.
    pub fn new(record_id: i64, total_size: u64) -> (r: ProgressTally)
        ensures
            r == (ProgressTally { record_id, total_size, downloaded: 0 }),
            r.wf(),
    {
        ProgressTally { record_id, total_size, downloaded: 0 }
    }

    /// Counts the bytes of a finished chunk and returns the new total. The
    /// total never goes down and never passes the resource's size.
    pub fn record(&mut self, chunk: &Chunk) -> (r: u64)
        requires
            old(self).wf(),
            chunk.wf(),
        ensures
            final(self).wf(),
            final(self).record_id == old(self).record_id,
            final(self).total_size == old(self).total_size,
            final(self).downloaded == if old(self).downloaded + chunk.len() <= old(
                self,
            ).total_size {
                old(self).downloaded + chunk.len()
            } else {
                old(self).total_size as int
            },
            old(self).downloaded <= final(self).downloaded,
            r == final(self).downloaded,
    {
        let bytes = chunk.end - chunk.start;
        let room = self.total_size - self.downloaded;
        if bytes < room {
            self.downloaded = self.downloaded + bytes + 1;
        } else {
            self.downloaded = self.total_size;
        }
        self.downloaded
    }
}

/// The chunks of record `record_id` for a resource of `total` bytes cut in
/// chunks of `size` bytes, none fetched yet.
pub open spec fn planned_chunks(record_id: i64, total: u64, size: u64) -> Seq<Chunk> {
    plan(total, size).map_values(
        |r: (u64, u64)|
            Chunk { id: 0, record_id, start: r.0, end: r.1, status: DownloadStatus::Pending },
    )
}

/// The rows to store for a new record: one `Pending` chunk per planned range.
pub fn plan_record_chunks(record_id: i64, total_size: u64, chunk_size: u64) -> (r: Result<
    Vec<Chunk>,
    PlanError,
>)
    ensures
        chunk_size == 0 <==> r is Err,
        r matches Ok(v) ==> v@ == planned_chunks(record_id, total_size, chunk_size),
{
    let ranges = match plan_chunks(total_size, chunk_size) {
        Ok(v) => v,
        Err(e) => {
            return Err(e);
        },
    };
    proof {
        lemma_plan_covers(total_size, chunk_size);
    }
    let mut chunks: Vec<Chunk> = Vec::new();
    let mut i: usize = 0;
    while i < ranges.len()
        invariant
            ranges@ == plan(total_size, chunk_size),
            forall|k: int| 0 <= k < ranges@.len() ==> #[trigger] ranges@[k].0 <= ranges@[k].1,
            i <= ranges@.len(),
            chunks@ =~= planned_chunks(record_id, total_size, chunk_size).subrange(0, i as int),
        decreases ranges@.len() - i,
    {
        let (start, end) = ranges[i];
        assert(ranges@[i as int].0 <= ranges@[i as int].1);
        chunks.push(Chunk::new(record_id, start, end));
        i += 1;
    }
    Ok(chunks)
}

/// The chunks still to fetch, in their order: those not finished.
pub open spec fn open_chunks(chunks: Seq<Chunk>) -> Seq<Chunk>
    decreases chunks.len(),
{
    if chunks.len() == 0 {
        Seq::empty()
    } else if chunks.last().status != DownloadStatus::Finished {
        open_chunks(chunks.drop_last()).push(chunks.last())
    } else {
        open_chunks(chunks.drop_last())
    }
}

/// The chunks of a resumed download that still need a worker.
pub fn outstanding_chunks(chunks: &Vec<Chunk>) -> (r: Vec<Chunk>)
    ensures
        r@ == open_chunks(chunks@),
{
    let mut r: Vec<Chunk> = Vec::new();
    let mut i: usize = 0;
    while i < chunks.len()
        invariant
            i <= chunks@.len(),
            r@ == open_chunks(chunks@.subrange(0, i as int)),
        decreases chunks@.len() - i,
    {
        assert(chunks@.subrange(0, i + 1).drop_last() =~= chunks@.subrange(0, i as int));
        if chunks[i].status != DownloadStatus::Finished {
            r.push(chunks[i]);
        }
        i += 1;
    }
    assert(chunks@.subrange(0, chunks@.len() as int) =~= chunks@);
    r
}

/// Where a download session stands.
#[derive(Clone, Copy, Debug, PartialEq, Eq, Structural)]
pub enum Stage {
    /// The store is being asked for a record of the URL.
    Lookup,
    /// The server is being asked for the resource's length.
    Probe,
    /// The destination directory is being made.
    PrepareDir,
    /// The output file is being made at its full length.
    Allocate,
    /// The record is being stored.
    Insert,
    /// The chunk rows are being stored.
    Register,
    /// Nothing is left for the session to decide.
    Done,
}

/// One start of a download: its stage and what it has learnt so far.
#[derive(Clone, Copy, Debug, PartialEq, Eq, Structural)]
pub struct Session {
    pub stage: Stage,
    pub record_id: i64,
    pub total_size: u64,
    pub chunk_size: u64,
}

/// What came of the last action.
#[derive(Debug)]
pub enum Event {
    /// The store holds a record of the URL, with these chunks.
    Found { record_id: i64, chunks: Vec<Chunk> },
    /// The store holds no record of the URL.
    NotFound,
    /// The store could not be read.
    LookupFailed,
    /// The probe's answer, with its `Content-Length` header if it had one.
    Probed { content_length: Option<String> },
    /// Whether the destination directory could be made.
    DirCreated { ok: bool },
    /// Whether the output file could be made at its full length.
    FileAllocated { ok: bool },
    /// The store's answer to the new record: its id, or why it was refused.
    Inserted { result: Result<i64, StoreError> },
    /// Whether every chunk row was stored.
    ChunksSaved { ok: bool },
}

/// What the caller is to do next.
#[derive(Debug)]
pub enum Action {
    /// Ask the server for the resource's length (a metadata-only request).
    ProbeSize,
    /// Make the destination directory and those above it.
    CreateDir,
    /// Make the output file, `size` bytes long.
    AllocateFile { size: u64 },
    /// Store the record, with `file_size` as its size.
    InsertRecord { file_size: u64 },
    /// Store these chunk rows.
    SaveChunks { chunks: Vec<Chunk> },
    /// Send the "started" notification with `status`, then start one worker
    /// per chunk given.
    Begin { record_id: i64, status: DownloadStatus, chunks: Vec<Chunk> },
    /// Send the one "already downloaded" message; nothing else is done.
    AlreadyDownloaded { record_id: i64 },
    /// Give up on this start with `error`.
    Abort { error: DownloadError },
    /// Nothing to do.
    Idle,
}

/// An event, with its text and lists as sequences.
pub enum EventModel {
    Found { record_id: i64, chunks: Seq<Chunk> },
    NotFound,
    LookupFailed,
    Probed { content_length: Option<Seq<char>> },
    DirCreated { ok: bool },
    FileAllocated { ok: bool },
    Inserted { result: Result<i64, StoreError> },
    ChunksSaved { ok: bool },
}

/// An action, with its lists as sequences.
pub enum ActionModel {
    ProbeSize,
    CreateDir,
    AllocateFile { size: u64 },
    InsertRecord { file_size: u64 },
    SaveChunks { chunks: Seq<Chunk> },
    Begin { record_id: i64, status: DownloadStatus, chunks: Seq<Chunk> },
    AlreadyDownloaded { record_id: i64 },
    Abort { error: DownloadError },
    Idle,
}

impl View for Event {
    type V = EventModel;

    open spec fn view(&self) -> EventModel {
        match self {
            Event::Found { record_id, chunks } => EventModel::Found {
                record_id: *record_id,
                chunks: chunks@,
            },
            Event::NotFound => EventModel::NotFound,
            Event::LookupFailed => EventModel::LookupFailed,
            Event::Probed { content_length } => EventModel::Probed {
                content_length: match content_length {
                    Some(t) => Some(t@),
                    None => None,
                },
            },
            Event::DirCreated { ok } => EventModel::DirCreated { ok: *ok },
            Event::FileAllocated { ok } => EventModel::FileAllocated { ok: *ok },
            Event::Inserted { result } => EventModel::Inserted { result: *result },
            Event::ChunksSaved { ok } => EventModel::ChunksSaved { ok: *ok },
        }
    }
}

impl View for Action {
    type V = ActionModel;

    open spec fn view(&self) -> ActionModel {
        match self {
            Action::ProbeSize => ActionModel::ProbeSize,
            Action::CreateDir => ActionModel::CreateDir,
            Action::AllocateFile { size } => ActionModel::AllocateFile { size: *size },
            Action::InsertRecord { file_size } => ActionModel::InsertRecord {
                file_size: *file_size,
            },
            Action::SaveChunks { chunks } => ActionModel::SaveChunks { chunks: chunks@ },
            Action::Begin { record_id, status, chunks } => ActionModel::Begin {
                record_id: *record_id,
                status: *status,
                chunks: chunks@,
            },
            Action::AlreadyDownloaded { record_id } => ActionModel::AlreadyDownloaded {
                record_id: *record_id,
            },
            Action::Abort { error } => ActionModel::Abort { error: *error },
            Action::Idle => ActionModel::Idle,
        }
    }
}

/// The session after it gives up with `error`.
pub open spec fn aborted(s: Session, error: DownloadError) -> (Session, ActionModel) {
    (Session { stage: Stage::Done, ..s }, ActionModel::Abort { error })
}

/// One decision: the session's next state and action after `e`. An event
/// that does not answer the stage's action changes nothing.
pub open spec fn next(s: Session, e: EventModel) -> (Session, ActionModel) {
    match s.stage {
        Stage::Lookup => match e {
            EventModel::Found { record_id, chunks } => if aggregate_status(chunks)
                == DownloadStatus::Finished {
                (
                    Session { stage: Stage::Done, record_id, ..s },
                    ActionModel::AlreadyDownloaded { record_id },
                )
            } else {
                (
                    Session { stage: Stage::Done, record_id, ..s },
                    ActionModel::Begin {
                        record_id,
                        status: aggregate_status(chunks),
                        chunks: open_chunks(chunks),
                    },
                )
            },
            EventModel::NotFound => (Session { stage: Stage::Probe, ..s }, ActionModel::ProbeSize),
            EventModel::LookupFailed => aborted(s, DownloadError::StorageError),
            _ => (s, ActionModel::Idle),
        },
        Stage::Probe => match e {
            EventModel::Probed { content_length } => match content_length_value(content_length) {
                Some(n) => (
                    Session { stage: Stage::PrepareDir, total_size: n, ..s },
                    ActionModel::CreateDir,
                ),
                None => aborted(s, DownloadError::SizeUnknown),
            },
            _ => (s, ActionModel::Idle),
        },
        Stage::PrepareDir => match e {
            EventModel::DirCreated { ok } => if ok {
                (
                    Session { stage: Stage::Allocate, ..s },
                    ActionModel::AllocateFile { size: s.total_size },
                )
            } else {
                aborted(s, DownloadError::DestinationUnwritable)
            },
            _ => (s, ActionModel::Idle),
        },
        Stage::Allocate => match e {
            EventModel::FileAllocated { ok } => if ok {
                (
                    Session { stage: Stage::Insert, ..s },
                    ActionModel::InsertRecord { file_size: s.total_size },
                )
            } else {
                aborted(s, DownloadError::DestinationUnwritable)
            },
            _ => (s, ActionModel::Idle),
        },
        Stage::Insert => match e {
            EventModel::Inserted { result } => match result {
                Ok(id) => (
                    Session { stage: Stage::Register, record_id: id, ..s },
                    ActionModel::SaveChunks {
                        chunks: planned_chunks(id, s.total_size, s.chunk_size),
                    },
                ),
                Err(StoreError::DuplicateKey) => aborted(s, DownloadError::DuplicateKey),
                Err(_) => aborted(s, DownloadError::StorageError),
            },
            _ => (s, ActionModel::Idle),
        },
        Stage::Register => match e {
            EventModel::ChunksSaved { ok } => if ok {
                (
                    Session { stage: Stage::Done, ..s },
                    ActionModel::Begin {
                        record_id: s.record_id,
                        status: DownloadStatus::Pending,
                        chunks: planned_chunks(s.record_id, s.total_size, s.chunk_size),
                    },
                )
            } else {
                aborted(s, DownloadError::StorageError)
            },
            _ => (s, ActionModel::Idle),
        },
        Stage::Done => (s, ActionModel::Idle),
    }
}

/// The actions that a session takes on a run of events, one per event.
pub open spec fn actions(s: Session, events: Seq<EventModel>) -> Seq<ActionModel>
    decreases events.len(),
{
    if events.len() == 0 {
        Seq::empty()
    } else {
        seq![next(s, events[0]).1] + actions(next(s, events[0]).0, events.drop_first())
    }
}

impl Session {
    pub open spec fn wf(&self) -> bool {
        self.chunk_size > 0
    }

    /// A new start of a download cut in chunks of `chunk_size` bytes. Its
    /// first action is to look the URL up in the store.
    pub fn new(chunk_size: u64) -> (r: Result<Session, PlanError>)
        ensures
            chunk_size == 0 <==> r is Err,
            r matches Ok(s) ==> s == (Session {
                stage: Stage::Lookup,
                record_id: 0,
                total_size: 0,
                chunk_size,
            }) && s.wf(),
    {
        if chunk_size == 0 {
            Err(PlanError::ConfigError)
        } else {
            Ok(Session { stage: Stage::Lookup, record_id: 0, total_size: 0, chunk_size })
        }
    }

    fn abort(&mut self, error: DownloadError) -> (r: Action)
        ensures
            (*final(self), r@) == aborted(*old(self), error),
    {
        self.stage = Stage::Done;
        Action::Abort { error }
    }

    /// Takes in what came of the last action and returns the next one.
    pub fn step(&mut self, event: Event) -> (r: Action)
        requires
            old(self).wf(),
        ensures
            final(self).wf(),
            (*final(self), r@) == next(*old(self), event@),
    {
        match self.stage {
            Stage::Lookup => match event {
                Event::Found { record_id, chunks } => {
                    let counts = crate::aggregate::ChunkCounts::of(&chunks);
                    let status = counts.status();
                    self.stage = Stage::Done;
                    self.record_id = record_id;
                    if status == DownloadStatus::Finished {
                        Action::AlreadyDownloaded { record_id }
                    } else {
                        Action::Begin { record_id, status, chunks: outstanding_chunks(&chunks) }
                    }
                },
                Event::NotFound => {
                    self.stage = Stage::Probe;
                    Action::ProbeSize
                },
                Event::LookupFailed => self.abort(DownloadError::StorageError),
                _ => Action::Idle,
            },
            Stage::Probe => match event {
                Event::Probed { content_length } => {
                    let header = match &content_length {
                        Some(t) => Some(t.as_str()),
                        None => None,
                    };
                    match parse_content_length(header) {
                        Ok(n) => {
                            self.stage = Stage::PrepareDir;
                            self.total_size = n;
                            Action::CreateDir
                        },
                        Err(e) => self.abort(e),
                    }
                },
                _ => Action::Idle,
            },
            Stage::PrepareDir => match event {
                Event::DirCreated { ok } => {
                    if ok {
                        self.stage = Stage::Allocate;
                        Action::AllocateFile { size: self.total_size }
                    } else {
                        self.abort(DownloadError::DestinationUnwritable)
                    }
                },
                _ => Action::Idle,
            },
            Stage::Allocate => match event {
                Event::FileAllocated { ok } => {
                    if ok {
                        self.stage = Stage::Insert;
                        Action::InsertRecord { file_size: self.total_size }
                    } else {
                        self.abort(DownloadError::DestinationUnwritable)
                    }
                },
                _ => Action::Idle,
            },
            Stage::Insert => match event {
                Event::Inserted { result } => match result {
                    Ok(id) => {
                        let chunks = self.planned(id);
                        self.stage = Stage::Register;
                        self.record_id = id;
                        Action::SaveChunks { chunks }
                    },
                    Err(StoreError::DuplicateKey) => self.abort(DownloadError::DuplicateKey),
                    Err(_) => self.abort(DownloadError::StorageError),
                },
                _ => Action::Idle,
            },
            Stage::Register => match event {
                Event::ChunksSaved { ok } => {
                    if ok {
                        let chunks = self.planned(self.record_id);
                        self.stage = Stage::Done;
                        Action::Begin {
                            record_id: self.record_id,
                            status: DownloadStatus::Pending,
                            chunks,
                        }
                    } else {
                        self.abort(DownloadError::StorageError)
                    }
                },
                _ => Action::Idle,
            },
            Stage::Done => Action::Idle,
        }
    }

    fn planned(&self, record_id: i64) -> (r: Vec<Chunk>)
        requires
            self.wf(),
        ensures
            r@ == planned_chunks(record_id, self.total_size, self.chunk_size),
    {
        match plan_record_chunks(record_id, self.total_size, self.chunk_size) {
            Ok(v) => v,
            Err(_) => Vec::new(),
        }
    }
}

/// `n` idle actions.
pub open spec fn idle_run(n: nat) -> Seq<ActionModel> {
    Seq::new(n, |i: int| ActionModel::Idle)
}

proof fn lemma_done_stays_idle(s: Session, events: Seq<EventModel>)
    requires
        s.stage == Stage::Done,
    ensures
        actions(s, events) == idle_run(events.len()),
    decreases events.len(),
{
    if events.len() > 0 {
        lemma_done_stays_idle(s, events.drop_first());
    }
    assert(actions(s, events) =~= idle_run(events.len()));
}

/// Starting a download whose chunks have all finished sends exactly one
/// message and does nothing more: no directory, no file, no store write and
/// no fetch, whatever events follow.
pub proof fn lemma_finished_download_untouched(
    s: Session,
    record_id: i64,
    chunks: Seq<Chunk>,
    rest: Seq<EventModel>,
)
    requires
        s.stage == Stage::Lookup,
        aggregate_status(chunks) == DownloadStatus::Finished,
    ensures
        actions(s, seq![EventModel::Found { record_id, chunks }] + rest) == seq![
            ActionModel::AlreadyDownloaded { record_id },
        ] + idle_run(rest.len()),
{
    let events = seq![EventModel::Found { record_id, chunks }] + rest;
    assert(events.drop_first() =~= rest);
    lemma_done_stays_idle(next(s, events[0]).0, rest);
}

/// A session whose record the store refuses as a duplicate gives up with
/// `DuplicateKey`, and stores no chunk and starts no worker afterwards.
pub proof fn lemma_duplicate_record_aborts(s: Session, rest: Seq<EventModel>)
    requires
        s.stage == Stage::Insert,
    ensures
        actions(s, seq![EventModel::Inserted { result: Err(StoreError::DuplicateKey) }] + rest)
            == seq![ActionModel::Abort { error: DownloadError::DuplicateKey }] + idle_run(
            rest.len(),
        ),
{
    let events = seq![EventModel::Inserted { result: Err(StoreError::DuplicateKey) }] + rest;
    assert(events.drop_first() =~= rest);
    lemma_done_stays_idle(next(s, events[0]).0, rest);
}

/// How many of `acts` store a record.
pub open spec fn record_inserts(acts: Seq<ActionModel>) -> nat
    decreases acts.len(),
{
    if acts.len() == 0 {
        0
    } else {
        record_inserts(acts.drop_first()) + if acts[0] is InsertRecord {
            1nat
        } else {
            0nat
        }
    }
}

pub open spec fn stage_rank(st: Stage) -> int {
    match st {
        Stage::Lookup => 0,
        Stage::Probe => 1,
        Stage::PrepareDir => 2,
        Stage::Allocate => 3,
        Stage::Insert => 4,
        Stage::Register => 5,
        Stage::Done => 6,
    }
}

proof fn lemma_no_insert_after_allocate(s: Session, events: Seq<EventModel>)
    requires
        stage_rank(s.stage) > 3,
    ensures
        record_inserts(actions(s, events)) == 0,
    decreases events.len(),
{
    if events.len() > 0 {
        lemma_no_insert_after_allocate(next(s, events[0]).0, events.drop_first());
        let acts = actions(s, events);
        assert(acts.drop_first() =~= actions(next(s, events[0]).0, events.drop_first()));
    }
}

/// One session stores its record at most once, whatever events it is given;
/// with the store's uniqueness of URLs, two sessions for one new URL cannot
/// both leave a record.
pub proof fn lemma_record_inserted_at_most_once(s: Session, events: Seq<EventModel>)
    ensures
        record_inserts(actions(s, events)) <= 1,
    decreases events.len(),
{
    if events.len() > 0 {
        let after = next(s, events[0]).0;
        let acts = actions(s, events);
        assert(acts.drop_first() =~= actions(after, events.drop_first()));
        if acts[0] is InsertRecord {
            lemma_no_insert_after_allocate(after, events.drop_first());
        } else {
            lemma_record_inserted_at_most_once(after, events.drop_first());
        }
    }
}

} // verus!

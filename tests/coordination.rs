use yad::coordinator::{
    accepts_body, outstanding_chunks, parse_content_length, plan_record_chunks, range_header,
    settle_chunk, Action, DownloadError, Event, ProgressTally, Session, Stage,
};
use yad::files::DownloadStatus;
use yad::planner::PlanError;
use yad::storage::{Chunk, StoreError};

fn with_status(c: Chunk, status: DownloadStatus) -> Chunk {
    Chunk { status, ..c }
}

fn session_at_insert() -> Session {
    let mut s = Session::new(4).unwrap();
    assert!(matches!(s.step(Event::NotFound), Action::ProbeSize));
    assert!(matches!(
        s.step(Event::Probed { content_length: Some("10".to_string()) }),
        Action::CreateDir
    ));
    assert!(matches!(s.step(Event::DirCreated { ok: true }), Action::AllocateFile { size: 10 }));
    assert!(matches!(
        s.step(Event::FileAllocated { ok: true }),
        Action::InsertRecord { file_size: 10 }
    ));
    assert_eq!(s.stage, Stage::Insert);
    s
}

#[test]
fn fresh_download_registers_every_chunk_before_fetching() {
    let mut s = session_at_insert();
    let saved = match s.step(Event::Inserted { result: Ok(42) }) {
        Action::SaveChunks { chunks } => chunks,
        other => panic!("unexpected {:?}", other),
    };
    assert_eq!(saved.len(), 3);
    assert_eq!((saved[0].start, saved[0].end), (0, 3));
    assert_eq!((saved[2].start, saved[2].end), (8, 9));
    assert!(saved.iter().all(|c| c.record_id == 42 && c.status == DownloadStatus::Pending));
    match s.step(Event::ChunksSaved { ok: true }) {
        Action::Begin { record_id, status, chunks } => {
            assert_eq!(record_id, 42);
            assert_eq!(status, DownloadStatus::Pending);
            assert_eq!(chunks, saved);
        }
        other => panic!("unexpected {:?}", other),
    }
    assert_eq!(s.stage, Stage::Done);
    assert!(matches!(s.step(Event::NotFound), Action::Idle));
}

#[test]
fn finished_download_only_sends_a_message() {
    let mut s = Session::new(4).unwrap();
    let chunks = vec![
        with_status(Chunk::new(9, 0, 3), DownloadStatus::Finished),
        with_status(Chunk::new(9, 4, 5), DownloadStatus::Finished),
    ];
    assert!(matches!(
        s.step(Event::Found { record_id: 9, chunks }),
        Action::AlreadyDownloaded { record_id: 9 }
    ));
    assert!(matches!(s.step(Event::NotFound), Action::Idle));
    assert!(matches!(s.step(Event::DirCreated { ok: true }), Action::Idle));
    assert!(matches!(s.step(Event::ChunksSaved { ok: true }), Action::Idle));
}

#[test]
fn unfinished_download_resumes_open_chunks() {
    let mut s = Session::new(4).unwrap();
    let chunks = vec![
        with_status(Chunk::new(9, 0, 3), DownloadStatus::Finished),
        with_status(Chunk::new(9, 4, 7), DownloadStatus::Failed),
        with_status(Chunk::new(9, 8, 9), DownloadStatus::Pending),
    ];
    match s.step(Event::Found { record_id: 9, chunks: chunks.clone() }) {
        Action::Begin { record_id, status, chunks: open } => {
            assert_eq!(record_id, 9);
            assert_eq!(status, DownloadStatus::Failed);
            assert_eq!(open, vec![chunks[1], chunks[2]]);
        }
        other => panic!("unexpected {:?}", other),
    }
}

#[test]
fn second_record_for_a_url_is_refused() {
    let mut s = session_at_insert();
    assert!(matches!(
        s.step(Event::Inserted { result: Err(StoreError::DuplicateKey) }),
        Action::Abort { error: DownloadError::DuplicateKey }
    ));
    assert!(matches!(s.step(Event::ChunksSaved { ok: true }), Action::Idle));
}

#[test]
fn other_store_failures_abort() {
    let mut s = session_at_insert();
    assert!(matches!(
        s.step(Event::Inserted { result: Err(StoreError::StorageError) }),
        Action::Abort { error: DownloadError::StorageError }
    ));
    let mut t = Session::new(4).unwrap();
    assert!(matches!(
        t.step(Event::LookupFailed),
        Action::Abort { error: DownloadError::StorageError }
    ));
}

#[test]
fn missing_length_leaves_size_unknown() {
    let mut s = Session::new(4).unwrap();
    s.step(Event::NotFound);
    assert!(matches!(
        s.step(Event::Probed { content_length: None }),
        Action::Abort { error: DownloadError::SizeUnknown }
    ));
    let mut t = Session::new(4).unwrap();
    t.step(Event::NotFound);
    assert!(matches!(
        t.step(Event::Probed { content_length: Some("ten".to_string()) }),
        Action::Abort { error: DownloadError::SizeUnknown }
    ));
}

#[test]
fn unwritable_destination_aborts() {
    let mut s = Session::new(4).unwrap();
    s.step(Event::NotFound);
    s.step(Event::Probed { content_length: Some("10".to_string()) });
    assert!(matches!(
        s.step(Event::DirCreated { ok: false }),
        Action::Abort { error: DownloadError::DestinationUnwritable }
    ));
    let mut t = Session::new(4).unwrap();
    t.step(Event::NotFound);
    t.step(Event::Probed { content_length: Some("10".to_string()) });
    t.step(Event::DirCreated { ok: true });
    assert!(matches!(
        t.step(Event::FileAllocated { ok: false }),
        Action::Abort { error: DownloadError::DestinationUnwritable }
    ));
}

#[test]
fn failed_chunk_rows_abort() {
    let mut s = session_at_insert();
    s.step(Event::Inserted { result: Ok(1) });
    assert!(matches!(
        s.step(Event::ChunksSaved { ok: false }),
        Action::Abort { error: DownloadError::StorageError }
    ));
}

#[test]
fn out_of_place_event_changes_nothing() {
    let mut s = Session::new(4).unwrap();
    assert!(matches!(s.step(Event::DirCreated { ok: true }), Action::Idle));
    assert_eq!(s.stage, Stage::Lookup);
}

#[test]
fn zero_chunk_size_session_is_refused() {
    assert_eq!(Session::new(0), Err(PlanError::ConfigError));
    assert_eq!(plan_record_chunks(1, 10, 0), Err(PlanError::ConfigError));
}

#[test]
fn content_length_header_values() {
    assert_eq!(parse_content_length(Some("10485760")), Ok(10_485_760));
    assert_eq!(parse_content_length(Some("")), Err(DownloadError::SizeUnknown));
    assert_eq!(parse_content_length(Some("-1")), Err(DownloadError::SizeUnknown));
    assert_eq!(parse_content_length(None), Err(DownloadError::SizeUnknown));
}

#[test]
fn range_header_is_inclusive() {
    assert_eq!(range_header(&Chunk::new(1, 0, 1_048_575)), "bytes=0-1048575");
    assert_eq!(range_header(&Chunk::new(1, 9_437_184, 10_485_759)), "bytes=9437184-10485759");
    assert_eq!(range_header(&Chunk::new(1, 0, u64::MAX)), "bytes=0-18446744073709551615");
}

#[test]
fn body_must_match_chunk_length() {
    let c = Chunk::new(1, 100, 199);
    assert!(accepts_body(&c, true, 100));
    assert!(!accepts_body(&c, true, 99));
    assert!(!accepts_body(&c, true, 1000));
    assert!(!accepts_body(&c, false, 100));
}

#[test]
fn settled_chunk_status() {
    let c = Chunk::new(1, 0, 9);
    assert_eq!(settle_chunk(c, true).status, DownloadStatus::Finished);
    assert_eq!(settle_chunk(c, false).status, DownloadStatus::Failed);
    assert_eq!(settle_chunk(c, true).start, 0);
}

#[test]
fn progress_is_cumulative_and_capped() {
    let mut p = ProgressTally::new(5, 25);
    assert_eq!(p.record(&Chunk::new(5, 10, 19)), 10);
    assert_eq!(p.record(&Chunk::new(5, 0, 9)), 20);
    assert_eq!(p.record(&Chunk::new(5, 20, 24)), 25);
    assert_eq!(p.record(&Chunk::new(5, 20, 24)), 25);
    assert_eq!(p.downloaded, 25);
}

#[test]
fn outstanding_chunks_skip_finished_ones() {
    let a = with_status(Chunk::new(1, 0, 1), DownloadStatus::Finished);
    let b = with_status(Chunk::new(1, 2, 3), DownloadStatus::InProgress);
    let c = with_status(Chunk::new(1, 4, 5), DownloadStatus::Failed);
    assert_eq!(outstanding_chunks(&vec![a, b, c]), vec![b, c]);
    assert_eq!(outstanding_chunks(&vec![a]), Vec::<Chunk>::new());
}

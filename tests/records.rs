use yad::aggregate::{annotate_record, ChunkCounts};
use yad::config::Config;
use yad::files::{get_destination_path, get_file_type, DownloadStatus, File, FileType};
use yad::storage::{expect_single_row, read_status, Chunk, DownloadRecord, StoreError};
use yad::text::{join_path, last_segment_of, parse_decimal};

fn chunk(start: u64, end: u64, status: DownloadStatus) -> Chunk {
    Chunk { status, ..Chunk::new(7, start, end) }
}

fn record(status: DownloadStatus) -> DownloadRecord {
    DownloadRecord {
        id: 7,
        file_url: "https://example.com/a.zip".to_string(),
        file_name: "a.zip".to_string(),
        file_type: FileType::Compressed,
        extension: "zip".to_string(),
        destination_dir: "/d/Compressed".to_string(),
        destination_path: "/d/Compressed/a.zip".to_string(),
        file_size: 30,
        download_start_time: 100,
        download_stop_time: 160,
        download_status: status,
        downloaded_basis_points: 0,
    }
}

fn linux_config() -> Config {
    Config::for_platform("Linux", "ada", "/home/ada")
}

#[test]
fn all_finished_chunks_make_a_finished_download() {
    let chunks = vec![
        chunk(0, 9, DownloadStatus::Finished),
        chunk(10, 19, DownloadStatus::Finished),
        chunk(20, 29, DownloadStatus::Finished),
    ];
    let r = annotate_record(record(DownloadStatus::Failed), &chunks);
    assert_eq!(r.download_status, DownloadStatus::Finished);
    assert_eq!(r.downloaded_basis_points, 10000);
    assert_eq!(r.id, 7);
    assert_eq!(r.file_url, "https://example.com/a.zip");
}

#[test]
fn one_failed_chunk_fails_the_download() {
    let chunks = vec![
        chunk(0, 9, DownloadStatus::Finished),
        chunk(10, 19, DownloadStatus::Failed),
        chunk(20, 29, DownloadStatus::Finished),
    ];
    let r = annotate_record(record(DownloadStatus::Finished), &chunks);
    assert_eq!(r.download_status, DownloadStatus::Failed);
    assert_eq!(r.downloaded_basis_points, 6666);
}

#[test]
fn failure_outranks_pending_chunks() {
    let chunks = vec![chunk(0, 9, DownloadStatus::Pending), chunk(10, 19, DownloadStatus::Cancelled)];
    let r = annotate_record(record(DownloadStatus::Pending), &chunks);
    assert_eq!(r.download_status, DownloadStatus::Failed);
    assert_eq!(r.downloaded_basis_points, 0);
}

#[test]
fn open_chunks_keep_the_download_pending() {
    let chunks = vec![
        chunk(0, 9, DownloadStatus::Finished),
        chunk(10, 19, DownloadStatus::InProgress),
        chunk(20, 29, DownloadStatus::Pending),
        chunk(30, 39, DownloadStatus::Finished),
    ];
    let counts = ChunkCounts::of(&chunks);
    assert_eq!(counts, ChunkCounts { pending: 2, finished: 2, failed: 0 });
    let r = annotate_record(record(DownloadStatus::Finished), &chunks);
    assert_eq!(r.download_status, DownloadStatus::Pending);
    assert_eq!(r.downloaded_basis_points, 5000);
}

#[test]
fn no_chunks_means_nothing_to_do() {
    let r = annotate_record(record(DownloadStatus::Pending), &Vec::new());
    assert_eq!(r.download_status, DownloadStatus::Finished);
    assert_eq!(r.downloaded_basis_points, 10000);
}

#[test]
fn status_names_round_trip() {
    for s in [
        DownloadStatus::Pending,
        DownloadStatus::InProgress,
        DownloadStatus::Failed,
        DownloadStatus::Finished,
        DownloadStatus::Cancelled,
    ] {
        assert_eq!(DownloadStatus::from_string(&s.to_string()), s);
        assert_eq!(DownloadStatus::parse(&s.to_string()), Some(s));
    }
    assert_eq!(DownloadStatus::InProgress.to_string(), "InProgress");
}

#[test]
fn unknown_status_name_defaults_or_is_corrupt() {
    assert_eq!(DownloadStatus::from_string("Done"), DownloadStatus::Pending);
    assert_eq!(DownloadStatus::parse("finished"), None);
    assert_eq!(read_status("Finished"), Ok(DownloadStatus::Finished));
    assert_eq!(read_status(""), Err(StoreError::StorageCorruption));
}

#[test]
fn file_type_names_round_trip() {
    for t in [
        FileType::Compressed,
        FileType::Videos,
        FileType::Audio,
        FileType::Documents,
        FileType::Programs,
        FileType::Images,
        FileType::Others,
    ] {
        assert_eq!(FileType::from_string(&t.to_string()), t);
    }
    assert_eq!(FileType::from_string("Movies"), FileType::Others);
}

#[test]
fn extensions_pick_categories() {
    assert_eq!(get_file_type("csv"), FileType::Documents);
    assert_eq!(get_file_type("mp4"), FileType::Videos);
    assert_eq!(get_file_type("7z"), FileType::Compressed);
    assert_eq!(get_file_type("opus"), FileType::Audio);
    assert_eq!(get_file_type("deb"), FileType::Programs);
    assert_eq!(get_file_type("svg"), FileType::Images);
    assert_eq!(get_file_type("PDF"), FileType::Others);
    assert_eq!(get_file_type(""), FileType::Others);
}

#[test]
fn new_file_takes_name_and_destination_from_url() {
    let cfg = linux_config();
    let f = File::new("https://example.com/files/report.final.pdf", &cfg, 1_700_000_000);
    assert_eq!(f.file_name, "report.final.pdf");
    assert_eq!(f.extension, "pdf");
    assert_eq!(f.file_type, FileType::Documents);
    assert_eq!(f.destination_dir, "/home/ada/Downloads/Yad/Documents");
    assert_eq!(f.destination_path, "/home/ada/Downloads/Yad/Documents/report.final.pdf");
    assert_eq!(f.download_start_time, 1_700_000_000);
    assert_eq!(f.download_status, DownloadStatus::Pending);
    assert_eq!(f.id, 0);
    assert_eq!(f.file_size, 0);
}

#[test]
fn file_without_extension_is_other() {
    let cfg = linux_config();
    let f = File::new("https://example.com/download", &cfg, 5);
    assert_eq!(f.file_name, "download");
    assert_eq!(f.extension, "download");
    assert_eq!(f.file_type, FileType::Others);
    assert_eq!(f.destination_path, "/home/ada/Downloads/Yad/Others/download");
}

#[test]
fn destination_groups_files_by_category() {
    let cfg = linux_config();
    let (dir, path) = get_destination_path("song.mp3", &cfg, &FileType::Audio);
    assert_eq!(dir, "/home/ada/Downloads/Yad/Audio");
    assert_eq!(path, "/home/ada/Downloads/Yad/Audio/song.mp3");
}

#[test]
fn config_follows_the_platform() {
    let linux = linux_config();
    assert_eq!(linux.config_dir, "/home/ada/.config/Yad");
    assert_eq!(linux.tmp_dir, "/tmp/Yad");
    assert_eq!(linux.download_dir, "/home/ada/Downloads/Yad");
    assert_eq!(linux.db_name, "Yad.db");
    assert_eq!(linux.user, "ada");
    let mac = Config::for_platform("Darwin", "ada", "/Users/ada");
    assert_eq!(mac.config_dir, "/Users/ada/Library/Application Support/Yad");
    assert_eq!(mac.tmp_dir, "/tmp/Yad");
    let win = Config::for_platform("Windows", "ada", "C:/Users/ada");
    assert_eq!(win.config_dir, "C:/Users/ada/AppData/Local/Yad");
    assert_eq!(win.tmp_dir, "C:/Users/ada/AppData/Local/Temp/Yad");
    let other = Config::for_platform("Plan9", "ada", "/usr/ada");
    assert_eq!(other.config_dir, "~/");
}

#[test]
fn paths_join_with_one_separator() {
    assert_eq!(join_path("/a", "b"), "/a/b");
    assert_eq!(join_path("/a/", "b"), "/a/b");
    assert_eq!(join_path("", "b"), "b");
    assert_eq!(join_path("/a", "/b"), "/b");
}

#[test]
fn last_segment_splits_on_last_separator() {
    assert_eq!(last_segment_of("a/b/c", '/'), "c");
    assert_eq!(last_segment_of("abc", '/'), "abc");
    assert_eq!(last_segment_of("a/b/", '/'), "");
}

#[test]
fn decimal_parsing() {
    assert_eq!(parse_decimal("0"), Some(0));
    assert_eq!(parse_decimal("18446744073709551615"), Some(u64::MAX));
    assert_eq!(parse_decimal("18446744073709551616"), None);
    assert_eq!(parse_decimal("+5"), None);
    assert_eq!(parse_decimal(""), None);
}

#[test]
fn record_and_file_convert_both_ways() {
    let cfg = linux_config();
    let f = File::new("https://example.com/x.iso", &cfg, 10);
    let r = DownloadRecord::from(f.clone());
    assert_eq!(r.id, 0);
    assert_eq!(r.file_type, FileType::Compressed);
    assert_eq!(r.destination_path, f.destination_path);
    let back = File::from(record(DownloadStatus::Finished));
    assert_eq!(back.download_duration, 60);
    let mut unstopped = record(DownloadStatus::Pending);
    unstopped.download_stop_time = 0;
    assert_eq!(File::from(unstopped).download_duration, 0);
}

#[test]
fn chunk_updates_must_touch_one_row() {
    assert_eq!(expect_single_row(1), Ok(()));
    assert_eq!(expect_single_row(0), Err(StoreError::StorageInconsistency));
    assert_eq!(expect_single_row(2), Err(StoreError::StorageInconsistency));
}

#[test]
fn new_chunk_is_pending() {
    let c = Chunk::new(3, 10, 20);
    assert_eq!(c, Chunk { id: 0, record_id: 3, start: 10, end: 20, status: DownloadStatus::Pending });
}

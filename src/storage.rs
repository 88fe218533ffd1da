//! The records and chunks that the store keeps, and how the store's answers
//! are read.
use vstd::prelude::*;

use crate::files::{DownloadStatus, File, FileType};

verus! {

/// One download as stored, with its status and progress as the listing
/// reports them.
#[derive(Clone, Debug)]
pub struct DownloadRecord {
    pub id: i64,
    pub file_url: String,
    pub file_name: String,
    pub file_type: FileType,
    pub extension: String,
    pub destination_dir: String,
    pub destination_path: String,
    pub file_size: u64,
    pub download_start_time: u64,
    pub download_stop_time: u64,
    pub download_status: DownloadStatus,
    /// The share of finished chunks, in hundredths of a percent (10000 is
    /// all of them). It is derived from the chunks and never stored.
    pub downloaded_basis_points: u64,
}

impl From<File> for DownloadRecord {
    fn from(f: File) -> (r: DownloadRecord) {
        DownloadRecord {
            id: 0,
            file_url: f.file_url,
            file_name: f.file_name,
            file_type: f.file_type,
            extension: f.extension,
            destination_dir: f.destination_dir,
            destination_path: f.destination_path,
            file_size: f.file_size,
            download_start_time: f.download_start_time,
            download_stop_time: f.download_stop_time,
            download_status: f.download_status,
            downloaded_basis_points: 0,
        }
    }
}

impl vstd::std_specs::convert::FromSpecImpl<File> for DownloadRecord {
    open spec fn obeys_from_spec() -> bool {
        true
    }

    /// A new record for the file: the store assigns its id.
    open spec fn from_spec(f: File) -> DownloadRecord {
        DownloadRecord {
            id: 0,
            file_url: f.file_url,
            file_name: f.file_name,
            file_type: f.file_type,
            extension: f.extension,
            destination_dir: f.destination_dir,
            destination_path: f.destination_path,
            file_size: f.file_size,
            download_start_time: f.download_start_time,
            download_stop_time: f.download_stop_time,
            download_status: f.download_status,
            downloaded_basis_points: 0,
        }
    }
}

/// The time between start and stop; zero while the download has not stopped.
pub open spec fn duration_between(start: u64, stop: u64) -> u64 {
    if stop >= start {
        (stop - start) as u64
    } else {
        0
    }
}

impl From<DownloadRecord> for File {
    fn from(dr: DownloadRecord) -> (r: File) {
        let download_duration = if dr.download_stop_time >= dr.download_start_time {
            dr.download_stop_time - dr.download_start_time
        } else {
            0
        };
        File {
            id: dr.id,
            file_url: dr.file_url,
            file_name: dr.file_name,
            file_type: dr.file_type,
            extension: dr.extension,
            destination_dir: dr.destination_dir,
            destination_path: dr.destination_path,
            file_size: dr.file_size,
            download_start_time: dr.download_start_time,
            download_stop_time: dr.download_stop_time,
            download_duration,
            download_status: dr.download_status,
        }
    }
}

impl vstd::std_specs::convert::FromSpecImpl<DownloadRecord> for File {
    open spec fn obeys_from_spec() -> bool {
        true
    }

    open spec fn from_spec(dr: DownloadRecord) -> File {
        File {
            id: dr.id,
            file_url: dr.file_url,
            file_name: dr.file_name,
            file_type: dr.file_type,
            extension: dr.extension,
            destination_dir: dr.destination_dir,
            destination_path: dr.destination_path,
            file_size: dr.file_size,
            download_start_time: dr.download_start_time,
            download_stop_time: dr.download_stop_time,
            download_duration: duration_between(dr.download_start_time, dr.download_stop_time),
            download_status: dr.download_status,
        }
    }
}

/// One inclusive byte range of a download, with its own status.
#[derive(Clone, Copy, Debug, PartialEq, Eq, Structural)]
pub struct Chunk {
    pub id: i64,
    pub record_id: i64,
    pub start: u64,
    pub end: u64,
    pub status: DownloadStatus,
}

impl Chunk {
    /// A range is never empty.
    pub open spec fn wf(&self) -> bool {
        self.start <= self.end
    }

    /// The number of bytes in the range.
    pub open spec fn len(&self) -> nat {
        (self.end - self.start + 1) as nat
    }

    /// A chunk of record `record_id` not yet fetched; the store assigns its id.
    pub fn new(record_id: i64, start: u64, end: u64) -> (r: Chunk)
        requires
            start <= end,
        ensures
            r == (Chunk { id: 0, record_id, start, end, status: DownloadStatus::Pending }),
            r.wf(),
    {
        Chunk { id: 0, record_id, start, end, status: DownloadStatus::Pending }
    }
}

/// Why the store could not do what was asked.
#[derive(Clone, Copy, Debug, PartialEq, Eq, Structural)]
pub enum StoreError {
    /// A record with the same URL or destination path is already stored.
    DuplicateKey,
    /// An update keyed by (record, start) matched no row, or more than one.
    StorageInconsistency,
    /// A stored value is not one the schema allows (a status of no known name).
    StorageCorruption,
    /// The store itself failed.
    StorageError,
}

/// Checks that an update keyed by one chunk's (record, start) changed exactly
/// one row.
pub fn expect_single_row(changed: usize) -> (r: Result<(), StoreError>)
    ensures
        r is Ok <==> changed == 1,
        r is Err ==> r == Err::<(), StoreError>(StoreError::StorageInconsistency),
{
    if changed == 1 {
        Ok(())
    } else {
        Err(StoreError::StorageInconsistency)
    }
}

/// Reads a stored status name; a name of no status is corrupt data.
pub fn read_status(name: &str) -> (r: Result<DownloadStatus, StoreError>)
    ensures
        r == (match crate::files::status_named(name@) {
            Some(s) => Ok(s),
            None => Err(StoreError::StorageCorruption),
        }),
{
    match DownloadStatus::parse(name) {
        Some(s) => Ok(s),
        None => Err(StoreError::StorageCorruption),
    }
}

} // verus!

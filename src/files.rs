//! What a download is about: its status, the category of its file, and where
//! the file goes.
use vstd::prelude::*;

use crate::config::Config;
use crate::text::{join_path, joined, last_segment, last_segment_of, same_text};

verus! {

/// The status of a download or of one of its chunks.
#[derive(Clone, Copy, Debug, PartialEq, Eq, Structural)]
pub enum DownloadStatus {
    Pending,
    InProgress,
    Failed,
    Finished,
    Cancelled,
}

/// The stored name of a status.
pub open spec fn status_name(s: DownloadStatus) -> Seq<char> {
    match s {
        DownloadStatus::Pending => "Pending"@,
        DownloadStatus::InProgress => "InProgress"@,
        DownloadStatus::Failed => "Failed"@,
        DownloadStatus::Finished => "Finished"@,
        DownloadStatus::Cancelled => "Cancelled"@,
    }
}

/// The status that a stored name stands for, if it names one.
pub open spec fn status_named(t: Seq<char>) -> Option<DownloadStatus> {
    if t == "Pending"@ {
        Some(DownloadStatus::Pending)
    } else if t == "InProgress"@ {
        Some(DownloadStatus::InProgress)
    } else if t == "Failed"@ {
        Some(DownloadStatus::Failed)
    } else if t == "Finished"@ {
        Some(DownloadStatus::Finished)
    } else if t == "Cancelled"@ {
        Some(DownloadStatus::Cancelled)
    } else {
        None
    }
}

impl DownloadStatus {
    /// The name under which the status is stored.
    pub fn to_string(&self) -> (r: String)
        ensures
            r@ == status_name(*self),
    {
        match self {
            DownloadStatus::Pending => String::from_str("Pending"),
            DownloadStatus::InProgress => String::from_str("InProgress"),
            DownloadStatus::Failed => String::from_str("Failed"),
            DownloadStatus::Finished => String::from_str("Finished"),
            DownloadStatus::Cancelled => String::from_str("Cancelled"),
        }
    }

    /// The status named by `status`, or `Pending` for a name that is none of
    /// them.
    pub fn from_string(status: &str) -> (r: DownloadStatus)
        ensures
            r == (match status_named(status@) {
                Some(s) => s,
                None => DownloadStatus::Pending,
            }),
    {
        match DownloadStatus::parse(status) {
            Some(s) => s,
            None => DownloadStatus::Pending,
        }
    }

    /// The status named by `status`; `None` for a name that is none of them,
    /// which in stored data means the data is corrupt.
    pub fn parse(status: &str) -> (r: Option<DownloadStatus>)
        ensures
            r == status_named(status@),
    {
        if same_text(status, "Pending") {
            Some(DownloadStatus::Pending)
        } else if same_text(status, "InProgress") {
            Some(DownloadStatus::InProgress)
        } else if same_text(status, "Failed") {
            Some(DownloadStatus::Failed)
        } else if same_text(status, "Finished") {
            Some(DownloadStatus::Finished)
        } else if same_text(status, "Cancelled") {
            Some(DownloadStatus::Cancelled)
        } else {
            None
        }
    }
}

/// Every status is read back as itself from its stored name, so a stored
/// status survives the store unchanged.
pub proof fn lemma_status_name_round_trip(s: DownloadStatus)
    ensures
        status_named(status_name(s)) == Some(s),
{
    reveal_strlit("Pending");
    reveal_strlit("InProgress");
    reveal_strlit("Failed");
    reveal_strlit("Finished");
    reveal_strlit("Cancelled");
    assert("Pending"@.len() == 7);
    assert("InProgress"@.len() == 10);
    assert("Failed"@.len() == 6);
    assert("Finished"@.len() == 8);
    assert("Cancelled"@.len() == 9);
}

/// The category of a file, which picks the directory it is saved in.
#[derive(Clone, Copy, Debug, PartialEq, Eq, Structural)]
pub enum FileType {
    Compressed,
    Videos,
    Audio,
    Documents,
    Programs,
    Images,
    Others,
}

/// The name of a category, as stored and as used for its directory.
pub open spec fn file_type_name(t: FileType) -> Seq<char> {
    match t {
        FileType::Compressed => "Compressed"@,
        FileType::Videos => "Videos"@,
        FileType::Audio => "Audio"@,
        FileType::Documents => "Documents"@,
        FileType::Programs => "Programs"@,
        FileType::Images => "Images"@,
        FileType::Others => "Others"@,
    }
}

/// The category that a stored name stands for; `Others` for any other name.
pub open spec fn file_type_named(t: Seq<char>) -> FileType {
    if t == "Compressed"@ {
        FileType::Compressed
    } else if t == "Videos"@ {
        FileType::Videos
    } else if t == "Audio"@ {
        FileType::Audio
    } else if t == "Documents"@ {
        FileType::Documents
    } else if t == "Programs"@ {
        FileType::Programs
    } else if t == "Images"@ {
        FileType::Images
    } else {
        FileType::Others
    }
}

impl FileType {
    /// The name of the category.
    pub fn to_string(&self) -> (r: String)
        ensures
            r@ == file_type_name(*self),
    {
        match self {
            FileType::Compressed => String::from_str("Compressed"),
            FileType::Videos => String::from_str("Videos"),
            FileType::Audio => String::from_str("Audio"),
            FileType::Documents => String::from_str("Documents"),
            FileType::Programs => String::from_str("Programs"),
            FileType::Images => String::from_str("Images"),
            FileType::Others => String::from_str("Others"),
        }
    }

    /// The category named by `file_type`.
    pub fn from_string(file_type: &str) -> (r: FileType)
        ensures
            r == file_type_named(file_type@),
    {
        if same_text(file_type, "Compressed") {
            FileType::Compressed
        } else if same_text(file_type, "Videos") {
            FileType::Videos
        } else if same_text(file_type, "Audio") {
            FileType::Audio
        } else if same_text(file_type, "Documents") {
            FileType::Documents
        } else if same_text(file_type, "Programs") {
            FileType::Programs
        } else if same_text(file_type, "Images") {
            FileType::Images
        } else {
            FileType::Others
        }
    }
}

pub open spec fn is_video_extension(ext: Seq<char>) -> bool {
    ext == "mp4"@
    || ext == "mkv"@
    || ext == "avi"@
    || ext == "mov"@
    || ext == "flv"@
    || ext == "webm"@
    || ext == "wmv"@
    || ext == "mpeg"@
    || ext == "mpg"@
    || ext == "3gp"@
}

pub open spec fn is_compressed_extension(ext: Seq<char>) -> bool {
    ext == "zip"@
    || ext == "rar"@
    || ext == "7z"@
    || ext == "tar"@
    || ext == "gz"@
    || ext == "targz"@
    || ext == "tarbz2"@
    || ext == "tarxz"@
    || ext == "iso"@
    || ext == "xz"@
}

pub open spec fn is_audio_extension(ext: Seq<char>) -> bool {
    ext == "mp3"@
    || ext == "flac"@
    || ext == "wav"@
    || ext == "aac"@
    || ext == "ogg"@
    || ext == "m4a"@
    || ext == "wma"@
    || ext == "alac"@
    || ext == "opus"@
    || ext == "amr"@
}

pub open spec fn is_document_extension(ext: Seq<char>) -> bool {
    ext == "pdf"@
    || ext == "docx"@
    || ext == "doc"@
    || ext == "txt"@
    || ext == "xlsx"@
    || ext == "pptx"@
    || ext == "ppt"@
    || ext == "odt"@
    || ext == "html"@
    || ext == "epub"@
    || ext == "csv"@
    || ext == "xml"@
}

pub open spec fn is_program_extension(ext: Seq<char>) -> bool {
    ext == "exe"@
    || ext == "msi"@
    || ext == "bat"@
    || ext == "apk"@
    || ext == "dmg"@
    || ext == "bin"@
    || ext == "deb"@
    || ext == "rpm"@
}

pub open spec fn is_image_extension(ext: Seq<char>) -> bool {
    ext == "jpg"@
    || ext == "jpeg"@
    || ext == "png"@
    || ext == "gif"@
    || ext == "bmp"@
    || ext == "tiff"@
    || ext == "webp"@
    || ext == "svg"@
    || ext == "ico"@
}

fn is_video_extension_exec(ext: &str) -> (r: bool)
    ensures
        r == is_video_extension(ext@),
{
    same_text(ext, "mp4")
        || same_text(ext, "mkv")
        || same_text(ext, "avi")
        || same_text(ext, "mov")
        || same_text(ext, "flv")
        || same_text(ext, "webm")
        || same_text(ext, "wmv")
        || same_text(ext, "mpeg")
        || same_text(ext, "mpg")
        || same_text(ext, "3gp")
}

fn is_compressed_extension_exec(ext: &str) -> (r: bool)
    ensures
        r == is_compressed_extension(ext@),
{
    same_text(ext, "zip")
        || same_text(ext, "rar")
        || same_text(ext, "7z")
        || same_text(ext, "tar")
        || same_text(ext, "gz")
        || same_text(ext, "targz")
        || same_text(ext, "tarbz2")
        || same_text(ext, "tarxz")
        || same_text(ext, "iso")
        || same_text(ext, "xz")
}

fn is_audio_extension_exec(ext: &str) -> (r: bool)
    ensures
        r == is_audio_extension(ext@),
{
    same_text(ext, "mp3")
        || same_text(ext, "flac")
        || same_text(ext, "wav")
        || same_text(ext, "aac")
        || same_text(ext, "ogg")
        || same_text(ext, "m4a")
        || same_text(ext, "wma")
        || same_text(ext, "alac")
        || same_text(ext, "opus")
        || same_text(ext, "amr")
}

fn is_document_extension_exec(ext: &str) -> (r: bool)
    ensures
        r == is_document_extension(ext@),
{
    same_text(ext, "pdf")
        || same_text(ext, "docx")
        || same_text(ext, "doc")
        || same_text(ext, "txt")
        || same_text(ext, "xlsx")
        || same_text(ext, "pptx")
        || same_text(ext, "ppt")
        || same_text(ext, "odt")
        || same_text(ext, "html")
        || same_text(ext, "epub")
        || same_text(ext, "csv")
        || same_text(ext, "xml")
}

fn is_program_extension_exec(ext: &str) -> (r: bool)
    ensures
        r == is_program_extension(ext@),
{
    same_text(ext, "exe")
        || same_text(ext, "msi")
        || same_text(ext, "bat")
        || same_text(ext, "apk")
        || same_text(ext, "dmg")
        || same_text(ext, "bin")
        || same_text(ext, "deb")
        || same_text(ext, "rpm")
}

fn is_image_extension_exec(ext: &str) -> (r: bool)
    ensures
        r == is_image_extension(ext@),
{
    same_text(ext, "jpg")
        || same_text(ext, "jpeg")
        || same_text(ext, "png")
        || same_text(ext, "gif")
        || same_text(ext, "bmp")
        || same_text(ext, "tiff")
        || same_text(ext, "webp")
        || same_text(ext, "svg")
        || same_text(ext, "ico")
}

/// Every category is read back as itself from its name.
pub proof fn lemma_file_type_name_round_trip(t: FileType)
    ensures
        file_type_named(file_type_name(t)) == t,
{
    reveal_strlit("Compressed");
    reveal_strlit("Videos");
    reveal_strlit("Audio");
    reveal_strlit("Documents");
    reveal_strlit("Programs");
    reveal_strlit("Images");
    reveal_strlit("Others");
    assert("Compressed"@.len() == 10);
    assert("Audio"@.len() == 5);
    assert("Documents"@.len() == 9);
    assert("Programs"@.len() == 8);
    assert("Videos"@[0] == 'V');
    assert("Images"@[0] == 'I');
    assert("Others"@[0] == 'O');
}

/// The category of a file with the given extension.
pub open spec fn file_type_of(ext: Seq<char>) -> FileType {
    if is_video_extension(ext) {
        FileType::Videos
    } else if is_compressed_extension(ext) {
        FileType::Compressed
    } else if is_audio_extension(ext) {
        FileType::Audio
    } else if is_document_extension(ext) {
        FileType::Documents
    } else if is_program_extension(ext) {
        FileType::Programs
    } else if is_image_extension(ext) {
        FileType::Images
    } else {
        FileType::Others
    }
}

/// The category of a file with the given extension (`csv` is a document,
/// `mp4` a video).
pub fn get_file_type(extension: &str) -> (r: FileType)
    ensures
        r == file_type_of(extension@),
{
    if is_video_extension_exec(extension) {
        FileType::Videos
    } else if is_compressed_extension_exec(extension) {
        FileType::Compressed
    } else if is_audio_extension_exec(extension) {
        FileType::Audio
    } else if is_document_extension_exec(extension) {
        FileType::Documents
    } else if is_program_extension_exec(extension) {
        FileType::Programs
    } else if is_image_extension_exec(extension) {
        FileType::Images
    } else {
        FileType::Others
    }
}

/// The directory of a category under the download directory, and the path of
/// `file_name` in it.
pub open spec fn destination_of(file_name: Seq<char>, download_dir: Seq<char>, file_type: FileType) -> (
    Seq<char>,
    Seq<char>,
) {
    (
        joined(download_dir, file_type_name(file_type)),
        joined(joined(download_dir, file_type_name(file_type)), file_name),
    )
}

/// Where a file goes: `<download_dir>/<category>` and the file's path in it,
/// so that files of one kind share a directory (~/Downloads/Yad/Documents).
pub fn get_destination_path(file_name: &str, cfg: &Config, file_type: &FileType) -> (r: (
    String,
    String,
))
    ensures
        (r.0@, r.1@) == destination_of(file_name@, cfg.download_dir@, *file_type),
{
    let name = file_type.to_string();
    let dir = join_path(cfg.download_dir.as_str(), name.as_str());
    let path = join_path(dir.as_str(), file_name);
    (dir, path)
}

/// A file to download and what is known of it.
#[derive(Clone, Debug)]
pub struct File {
    pub id: i64,
    pub file_url: String,
    pub file_name: String,
    pub file_type: FileType,
    pub extension: String,
    pub destination_dir: String,
    pub destination_path: String,
    pub file_size: u64,
    pub download_start_time: u64,
    pub download_stop_time: u64,
    pub download_duration: u64,
    pub download_status: DownloadStatus,
}

impl File {
    /// The file behind `file_url`, as first seen at `download_start_time`
    /// (seconds since the Unix epoch): its name is what follows the URL's
    /// last `/`, its extension what follows the name's last `.`, and its
    /// category and destination follow from those.
    pub fn new(file_url: &str, cfg: &Config, download_start_time: u64) -> (r: File)
        ensures
            r.id == 0,
            r.file_url@ == file_url@,
            r.file_name@ == last_segment(file_url@, '/'),
            r.extension@ == last_segment(last_segment(file_url@, '/'), '.'),
            r.file_type == file_type_of(r.extension@),
            (r.destination_dir@, r.destination_path@) == destination_of(
                r.file_name@,
                cfg.download_dir@,
                r.file_type,
            ),
            r.file_size == 0,
            r.download_start_time == download_start_time,
            r.download_stop_time == 0,
            r.download_duration == 0,
            r.download_status == DownloadStatus::Pending,
    {
        let file_name = last_segment_of(file_url, '/');
        let extension = last_segment_of(file_name, '.');
        let file_type = get_file_type(extension);
        let (destination_dir, destination_path) = get_destination_path(file_name, cfg, &file_type);
        File {
            id: 0,
            file_url: String::from_str(file_url),
            file_name: String::from_str(file_name),
            file_type,
            extension: String::from_str(extension),
            destination_dir,
            destination_path,
            file_size: 0,
            download_start_time,
            download_stop_time: 0,
            download_duration: 0,
            download_status: DownloadStatus::Pending,
        }
    }
}

} // verus!

//! Request and record types shared by the whole pipeline.

use vstd::prelude::*;

verus! {

/// The kind of artifact a download request asks the extraction tool for.
#[derive(Clone, Copy, PartialEq, Eq, Structural, Debug)]
pub enum FormatType {
    Video,
    Audio,
}

/// The quality tier a download request asks for.
#[derive(Clone, Copy, PartialEq, Eq, Structural, Debug)]
pub enum Quality {
    Highest,
    Medium,
    Lowest,
}

impl FormatType {
    /// The lower-case name used on the wire and in history records.
    pub open spec fn spec_name(self) -> Seq<char> {
        match self {
            FormatType::Video => "video"@,
            FormatType::Audio => "audio"@,
        }
    }

    pub fn to_string(&self) -> (r: String)
        ensures
            r@ == self.spec_name(),
    {
        match self {
            FormatType::Video => String::from_str("video"),
            FormatType::Audio => String::from_str("audio"),
        }
    }

    /// The file extension the tool is asked to produce for this kind.
    pub open spec fn spec_extension(self) -> Seq<char> {
        match self {
            FormatType::Video => "mp4"@,
            FormatType::Audio => "mp3"@,
        }
    }

    pub fn get_extension(&self) -> (r: &'static str)
        ensures
            r@ == self.spec_extension(),
    {
        match self {
            FormatType::Video => "mp4",
            FormatType::Audio => "mp3",
        }
    }

    /// The MIME type matching `spec_extension`.
    pub open spec fn spec_mime_type(self) -> Seq<char> {
        match self {
            FormatType::Video => "video/mp4"@,
            FormatType::Audio => "audio/mpeg"@,
        }
    }

    pub fn get_mime_type(&self) -> (r: &'static str)
        ensures
            r@ == self.spec_mime_type(),
    {
        match self {
            FormatType::Video => "video/mp4",
            FormatType::Audio => "audio/mpeg",
        }
    }
}

impl Quality {
    /// The lower-case name used on the wire and in history records.
    pub open spec fn spec_name(self) -> Seq<char> {
        match self {
            Quality::Highest => "highest"@,
            Quality::Medium => "medium"@,
            Quality::Lowest => "lowest"@,
        }
    }

    pub fn to_string(&self) -> (r: String)
        ensures
            r@ == self.spec_name(),
    {
        match self {
            Quality::Highest => String::from_str("highest"),
            Quality::Medium => String::from_str("medium"),
            Quality::Lowest => String::from_str("lowest"),
        }
    }
}

/// One immutable download request, consumed once by the orchestrator.
#[derive(Clone, Debug)]
pub struct DownloadRequest {
    pub source_url: String,
    pub kind: FormatType,
    pub quality: Quality,
}

/// The progress record published for one in-flight download: a 0..=100
/// unit scale, an ETA in whole seconds (0 meaning "not known yet") and a
/// human-readable status line.
#[derive(Clone, Debug)]
pub struct DownloadProgress {
    pub downloaded_bytes: u64,
    pub total_bytes: u64,
    pub eta_seconds: u64,
    pub status: String,
}

/// Mathematical image of a `DownloadProgress` record.
pub ghost struct ProgressV {
    pub downloaded_bytes: u64,
    pub total_bytes: u64,
    pub eta_seconds: u64,
    pub status: Seq<char>,
}

impl View for DownloadProgress {
    type V = ProgressV;

    open spec fn view(&self) -> ProgressV {
        ProgressV {
            downloaded_bytes: self.downloaded_bytes,
            total_bytes: self.total_bytes,
            eta_seconds: self.eta_seconds,
            status: self.status@,
        }
    }
}

impl Default for DownloadProgress {
    /// A fresh record: nothing downloaded, no ETA, initializing status.
    fn default() -> (r: Self)
        ensures
            r@.downloaded_bytes == 0,
            r@.total_bytes == 0,
            r@.eta_seconds == 0,
            r@.status == "Initializing..."@,
    {
        DownloadProgress {
            downloaded_bytes: 0,
            total_bytes: 0,
            eta_seconds: 0,
            status: String::from_str("Initializing..."),
        }
    }
}

/// The fatal failures a download can end in.  Metadata timeouts and
/// history-persistence failures are deliberately absent: both degrade
/// gracefully and never abort a download.
#[derive(Clone, Debug)]
pub enum DownloadError {
    /// The extraction tool could not be found or provisioned; the payload
    /// is a user-actionable message with installation steps.
    Unavailable(String),
    /// The request was rejected before any process was spawned.
    InvalidInput(String),
    /// The spawned extraction process failed; the payload holds its
    /// diagnostic output.
    ExtractionError(String),
    /// The tool reported success but no output file was found.
    ArtifactNotFound,
    /// A working-directory or file operation failed.
    IoError(String),
    /// The caller abandoned the download.
    Cancelled,
}

impl DownloadError {
    /// The text shown for each failure.
    pub open spec fn spec_message(self) -> Seq<char> {
        match self {
            DownloadError::Unavailable(m) => m@,
            DownloadError::InvalidInput(m) => m@,
            DownloadError::ExtractionError(m) => "Download failed: "@ + m@,
            DownloadError::ArtifactNotFound => "Failed to find downloaded file"@,
            DownloadError::IoError(m) => m@,
            DownloadError::Cancelled => "Download cancelled"@,
        }
    }

    /// A human-readable message suitable for direct display.
    pub fn message(&self) -> (r: String)
        ensures
            r@ == self.spec_message(),
    {
        match self {
            DownloadError::Unavailable(m) => m.clone(),
            DownloadError::InvalidInput(m) => m.clone(),
            DownloadError::ExtractionError(m) => {
                let mut r = String::from_str("Download failed: ");
                r.append(m.as_str());
                r
            },
            DownloadError::ArtifactNotFound => String::from_str("Failed to find downloaded file"),
            DownloadError::IoError(m) => m.clone(),
            DownloadError::Cancelled => String::from_str("Download cancelled"),
        }
    }
}

/// Toast notification shown by the surrounding shell.
#[derive(Clone, Debug)]
pub enum Toaster {
    Success(String),
    Error(String),
    Warning(String),
    Info(String),
}

} // verus!

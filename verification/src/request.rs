//! Building a download request out of the caller's plain strings, and the
//! key under which its progress is tracked.

use vstd::prelude::*;

use crate::text::{chars_vec, lower_vec, seq_contains, spec_lower, string_of_chars, vec_contains};
use crate::types::{DownloadError, DownloadRequest, FormatType, Quality};

verus! {

/// The URL shapes the extraction tool is known to support.
pub open spec fn spec_supported_url(u: Seq<char>) -> bool {
    seq_contains(u, "youtube.com/watch?v="@) || seq_contains(u, "youtu.be/"@)
}

/// Whether a URL matches a supported shape; anything else is rejected
/// before any process is spawned.
pub fn is_supported_url(url: &str) -> (r: bool)
    ensures
        r == spec_supported_url(url@),
{
    let v = chars_vec(url);
    let p1 = chars_vec("youtube.com/watch?v=");
    let p2 = chars_vec("youtu.be/");
    vec_contains(&v, &p1) || vec_contains(&v, &p2)
}

/// The reading of a format name, without regard to ASCII case.
pub open spec fn spec_parse_format_type(s: Seq<char>) -> Option<FormatType> {
    if spec_lower(s) == "audio"@ {
        Some(FormatType::Audio)
    } else if spec_lower(s) == "video"@ {
        Some(FormatType::Video)
    } else {
        None
    }
}

/// Parse a format name; unknown names are rejected.
pub fn parse_format_type(s: &str) -> (r: Option<FormatType>)
    ensures
        r == spec_parse_format_type(s@),
{
    let v = chars_vec(s);
    let lowered = string_of_chars(&lower_vec(&v));
    if lowered == String::from_str("audio") {
        Some(FormatType::Audio)
    } else if lowered == String::from_str("video") {
        Some(FormatType::Video)
    } else {
        None
    }
}

/// The reading of a quality name, without regard to ASCII case: unknown
/// names fall back to the highest quality.
pub open spec fn spec_parse_quality(s: Seq<char>) -> Quality {
    if spec_lower(s) == "lowest"@ {
        Quality::Lowest
    } else if spec_lower(s) == "medium"@ {
        Quality::Medium
    } else {
        Quality::Highest
    }
}

/// Parse a quality name.
pub fn parse_quality(s: &str) -> (r: Quality)
    ensures
        r == spec_parse_quality(s@),
{
    let v = chars_vec(s);
    let lowered = string_of_chars(&lower_vec(&v));
    if lowered == String::from_str("lowest") {
        Quality::Lowest
    } else if lowered == String::from_str("medium") {
        Quality::Medium
    } else {
        Quality::Highest
    }
}

impl DownloadRequest {
    /// Build a request from the caller's strings, rejecting unsupported
    /// URLs and unknown format names before anything is spawned.
    pub fn from_strings(url: &str, format_type: &str, quality: &str) -> (r: Result<
        DownloadRequest,
        DownloadError,
    >)
        ensures
            r is Ok <==> spec_supported_url(url@) && spec_parse_format_type(format_type@) is Some,
            r is Ok ==> r->Ok_0.source_url@ == url@ && r->Ok_0.kind == spec_parse_format_type(
                format_type@,
            )->Some_0 && r->Ok_0.quality == spec_parse_quality(quality@),
            r is Err ==> r->Err_0 is InvalidInput,
    {
        if !is_supported_url(url) {
            return Err(
                DownloadError::InvalidInput(
                    String::from_str(
                        "Invalid YouTube URL. Please provide a valid YouTube video URL.",
                    ),
                ),
            );
        }
        let kind = match parse_format_type(format_type) {
            Some(k) => k,
            None => {
                return Err(
                    DownloadError::InvalidInput(
                        String::from_str("Invalid format type. Please specify 'audio' or 'video'."),
                    ),
                );
            },
        };
        Ok(
            DownloadRequest {
                source_url: url.to_owned(),
                kind,
                quality: parse_quality(quality),
            },
        )
    }

    /// The key under which this request's progress is tracked: derived
    /// from the URL's length alone, as the polling side derives it.
    pub open spec fn spec_progress_key(self) -> u64 {
        self.source_url@.len() as u64
    }
}

/// The progress key for a URL: its length in characters.  Two URLs of one
/// length share a key, so their progress records would overwrite each
/// other; the orchestrator runs one job per key at a time.
pub fn progress_key(url: &str) -> (r: u64)
    ensures
        r == url@.len() as u64,
{
    let v = chars_vec(url);
    v.len() as u64
}

} // verus!

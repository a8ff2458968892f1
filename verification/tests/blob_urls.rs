use youtube_downloader::blob::create_blob_url;
use youtube_downloader::types::{DownloadError, Toaster};

#[test]
fn data_url_encodes_the_bytes() {
    let url = create_blob_url(b"abc", "video/mp4").expect("always built");
    assert_eq!(url, "data:video/mp4;base64,YWJj");
}

#[test]
fn data_url_pads_short_tails() {
    let url = create_blob_url(b"ab", "audio/mpeg").expect("always built");
    assert_eq!(url, "data:audio/mpeg;base64,YWI=");
}

#[test]
fn data_url_of_empty_buffer() {
    let url = create_blob_url(b"", "video/mp4").expect("always built");
    assert_eq!(url, "data:video/mp4;base64,");
}

#[test]
fn error_messages_are_displayable() {
    let e = DownloadError::ExtractionError(String::from("exit code 1"));
    assert_eq!(e.message(), "Download failed: exit code 1");
    assert_eq!(DownloadError::ArtifactNotFound.message(), "Failed to find downloaded file");
    assert_eq!(DownloadError::Cancelled.message(), "Download cancelled");
    let e = DownloadError::InvalidInput(String::from("bad URL"));
    assert_eq!(e.message(), "bad URL");
}

#[test]
fn toaster_variants_carry_their_text() {
    let t = Toaster::Success(String::from("saved"));
    assert!(matches!(t, Toaster::Success(m) if m == "saved"));
    let t = Toaster::Error(String::from("boom"));
    assert!(matches!(t, Toaster::Error(m) if m == "boom"));
}

use youtube_downloader::finder::{
    ext_of, find_downloaded_file, is_media_marker, is_media_name, is_partial_marker, scan_sample,
    DirListing, FileEntry,
};
use youtube_downloader::types::DownloadError;

fn file(name: &str, size: u64) -> FileEntry {
    FileEntry { name: String::from(name), size }
}

#[test]
fn media_file_wins_over_other_files() {
    let listing = DirListing {
        files: vec![file("report.txt", 10), file("video.mp4", 5000), file("audio.mp3", 400)],
        subdirs: vec![],
    };
    let a = find_downloaded_file(&listing).expect("media file present");
    assert_eq!(a.name, "video.mp4");
    assert_eq!(a.size, 5000);
    assert_eq!(a.extension, "mp4");
}

#[test]
fn arbitrary_file_is_the_fallback() {
    let listing = DirListing { files: vec![file("notes.txt", 10)], subdirs: vec![] };
    let a = find_downloaded_file(&listing).expect("some file present");
    assert_eq!(a.name, "notes.txt");
    assert_eq!(a.extension, "txt");
}

#[test]
fn subdirectory_media_found_when_top_level_is_empty() {
    let listing = DirListing {
        files: vec![],
        subdirs: vec![vec![], vec![file("inner.webm", 77)]],
    };
    let a = find_downloaded_file(&listing).expect("subdirectory file present");
    assert_eq!(a.name, "inner.webm");
    assert_eq!(a.extension, "webm");
}

#[test]
fn subdirectory_plain_file_is_the_last_resort() {
    let listing = DirListing { files: vec![], subdirs: vec![vec![file("leftover.tmp", 3)]] };
    let a = find_downloaded_file(&listing).expect("subdirectory file present");
    assert_eq!(a.name, "leftover.tmp");
}

#[test]
fn nothing_found_is_artifact_not_found() {
    let listing = DirListing { files: vec![], subdirs: vec![vec![], vec![]] };
    let e = find_downloaded_file(&listing).expect_err("nothing to find");
    assert!(matches!(e, DownloadError::ArtifactNotFound));
}

#[test]
fn extension_extraction() {
    assert_eq!(ext_of("video.mp4"), "mp4");
    assert_eq!(ext_of("archive.tar.gz"), "gz");
    assert_eq!(ext_of("noext"), "");
}

#[test]
fn media_name_check_ignores_case() {
    assert!(is_media_name("A.FLAC"));
    assert!(is_media_name("song.Opus"));
    assert!(!is_media_name("file.txt"));
    assert!(!is_media_name("noext"));
}

#[test]
fn partial_and_media_markers() {
    assert!(is_partial_marker("video.mp4.part"));
    assert!(is_partial_marker("video.f137.tmp"));
    assert!(!is_partial_marker("video.mp4"));
    assert!(is_media_marker("video.mp4"));
    assert!(is_media_marker("merged.mkv.tmp"));
    assert!(!is_media_marker("data.bin"));
}

#[test]
fn directory_scan_summarizes_signals() {
    let files = vec![file("video.f137.part", 1000), file("other.bin", 234)];
    let s = scan_sample(&files, 7, Some(450));
    assert_eq!(s.elapsed_seconds, 7);
    assert_eq!(s.bytes_on_disk, 1234);
    assert!(s.has_partial_file);
    assert!(!s.has_media_file);
    assert_eq!(s.tool_percent_tenths, Some(450));
}

#[test]
fn directory_scan_sees_processing_phase() {
    let files = vec![file("final.mp4", 9000)];
    let s = scan_sample(&files, 80, None);
    assert!(!s.has_partial_file);
    assert!(s.has_media_file);
    assert_eq!(s.bytes_on_disk, 9000);
}

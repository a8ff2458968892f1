use youtube_downloader::config::configure;
use youtube_downloader::estimator::TickSample;
use youtube_downloader::finder::{find_downloaded_file, DirListing, FileEntry};
use youtube_downloader::locator::{assess_probe, assess_provision, ExecutableRef, LocatorError};
use youtube_downloader::orchestrator::{
    adjusted_estimate, best_filesize, MediaMetadata, Orchestrator, Phase,
};
use youtube_downloader::store::{get_download_progress, ProgressStore};
use youtube_downloader::types::{DownloadError, DownloadRequest, FormatType, Quality};

const URL: &str = "https://www.youtube.com/watch?v=abc123";

fn request(kind: FormatType, quality: Quality) -> DownloadRequest {
    DownloadRequest { source_url: String::from(URL), kind, quality }
}

fn tick(elapsed: u64, bytes: u64, partial: bool, media: bool) -> TickSample {
    TickSample {
        elapsed_seconds: elapsed,
        bytes_on_disk: bytes,
        has_partial_file: partial,
        has_media_file: media,
        tool_percent_tenths: None,
    }
}

#[test]
fn happy_path_reaches_done_and_polls_complete() {
    let mut store = ProgressStore::new();
    let mut o = Orchestrator::new(request(FormatType::Video, Quality::Highest))
        .expect("supported URL");
    assert_eq!(o.phase, Phase::Initializing);

    o.tool_located(&Ok(ExecutableRef::BareName(String::from("yt-dlp"))));
    assert_eq!(o.phase, Phase::Initializing);

    o.workdir_created(&mut store, true);
    assert_eq!(o.phase, Phase::ResolvingMetadata);
    let (d, t, _, s) = get_download_progress(&store, URL);
    assert_eq!((d, t), (0, 100));
    assert_eq!(s, "Initializing download...");

    o.resolve_metadata(
        &mut store,
        Some(MediaMetadata {
            title: Some(String::from("A Video")),
            duration_seconds: 120,
            format_filesizes: vec![2_000_000, 9_000_000],
        }),
    );
    assert_eq!(o.phase, Phase::Configuring);
    assert_eq!(o.title, "A Video");
    let (d, _, _, s) = get_download_progress(&store, URL);
    assert_eq!(d, 10);
    assert_eq!(s, "Starting download: A Video");

    let cfg = o.configure_extraction(&mut store);
    assert_eq!(o.phase, Phase::Extracting);
    assert_eq!(cfg.format_selector, "bestvideo[ext=mp4]+bestaudio[ext=m4a]/best[ext=mp4]");
    assert!(!cfg.extract_audio);

    o.sample(&mut store, &tick(6, 3_000_000, true, false));
    o.sample(&mut store, &tick(12, 6_000_000, true, false));
    let (d, _, _, _) = get_download_progress(&store, URL);
    assert!((10..=80).contains(&d));

    o.extraction_finished(&mut store, Ok(()));
    assert_eq!(o.phase, Phase::Locating);

    let listing = DirListing {
        files: vec![FileEntry { name: String::from("video.mp4"), size: 9_000_000 }],
        subdirs: vec![],
    };
    o.artifact_located(&mut store, find_downloaded_file(&listing));
    assert_eq!(o.phase, Phase::ReadingArtifact);

    o.artifact_read(&mut store, true);
    assert_eq!(o.phase, Phase::Persisting);

    o.persisted(&mut store, true);
    assert_eq!(o.phase, Phase::Cleanup);

    o.cleanup_done(&mut store);
    assert_eq!(o.phase, Phase::Done);
    assert!(!o.workdir_present);

    // Terminal convergence: the poll after Done reads a full 100 of 100.
    let (d, t, e, s) = get_download_progress(&store, URL);
    assert_eq!((d, t, e), (100, 100, 0));
    assert_eq!(s, "Download complete!");

    // After the grace period the entry is released and polls read the
    // defaults again.
    o.release(&mut store);
    let (d, t, _, s) = get_download_progress(&store, URL);
    assert_eq!((d, t), (0, 0));
    assert_eq!(s, "Initializing download...");
}

#[test]
fn unsupported_url_is_rejected_before_anything_runs() {
    let r = Orchestrator::new(DownloadRequest {
        source_url: String::from("https://example.com/watch?v=abc123"),
        kind: FormatType::Video,
        quality: Quality::Highest,
    });
    let e = match r {
        Ok(_) => panic!("an unsupported URL must be rejected"),
        Err(e) => e,
    };
    assert!(matches!(e, DownloadError::InvalidInput(_)));
}

#[test]
fn unavailable_tool_fails_before_any_spawn() {
    let probe = assess_probe("yt-dlp", false, None);
    assert!(probe.is_none());
    let outcome = assess_provision("/opt/tool/yt-dlp", false, false);
    let err = outcome.expect_err("provisioning failed");
    let LocatorError::Unavailable(msg) = &err;
    assert!(msg.contains("install"), "message was: {msg}");

    let mut o = Orchestrator::new(request(FormatType::Video, Quality::Highest)).unwrap();
    o.tool_located(&Err(err));
    // The job is dead on the spot: no working directory, no process, and
    // the stored error carries the installation steps.
    assert_eq!(o.phase, Phase::Failed);
    assert!(!o.workdir_present);
    match o.error {
        Some(DownloadError::Unavailable(m)) => assert!(m.contains("install")),
        other => panic!("unexpected error: {other:?}"),
    }
}

#[test]
fn locator_accepts_found_or_provisioned_tools() {
    let found = assess_probe("yt-dlp", true, Some(String::from("/usr/bin/yt-dlp")));
    assert!(matches!(found, Some(ExecutableRef::CanonicalPath(p)) if p == "/usr/bin/yt-dlp"));
    let bare = assess_probe("yt-dlp", true, None);
    assert!(matches!(bare, Some(ExecutableRef::BareName(n)) if n == "yt-dlp"));
    let provisioned = assess_provision("/opt/tool/yt-dlp", true, true).expect("provisioned");
    assert!(matches!(provisioned, ExecutableRef::CanonicalPath(p) if p == "/opt/tool/yt-dlp"));
}

#[test]
fn workdir_failure_is_fatal_with_nothing_to_clean() {
    let mut store = ProgressStore::new();
    let mut o = Orchestrator::new(request(FormatType::Video, Quality::Highest)).unwrap();
    o.tool_located(&Ok(ExecutableRef::BareName(String::from("yt-dlp"))));
    o.workdir_created(&mut store, false);
    assert_eq!(o.phase, Phase::Failed);
    assert!(!o.workdir_present);
    assert!(matches!(o.error, Some(DownloadError::IoError(_))));
}

#[test]
fn extraction_failure_cleans_up_and_keeps_percentage() {
    let mut store = ProgressStore::new();
    let mut o = Orchestrator::new(request(FormatType::Video, Quality::Highest)).unwrap();
    o.tool_located(&Ok(ExecutableRef::BareName(String::from("yt-dlp"))));
    o.workdir_created(&mut store, true);
    o.resolve_metadata(&mut store, None);
    assert_eq!(o.title, "Unknown");
    o.configure_extraction(&mut store);
    o.sample(&mut store, &tick(8, 500_000, true, false));
    let (before, _, _, _) = get_download_progress(&store, URL);

    o.extraction_finished(&mut store, Err(String::from("HTTP 403")));
    assert_eq!(o.phase, Phase::Cleanup);
    let (d, _, _, s) = get_download_progress(&store, URL);
    assert_eq!(d, before, "failure must not move the percentage");
    assert_eq!(s, "Error: HTTP 403");

    o.cleanup_done(&mut store);
    assert_eq!(o.phase, Phase::Failed);
    assert!(!o.workdir_present);
    assert!(matches!(o.error, Some(DownloadError::ExtractionError(_))));
}

#[test]
fn missing_artifact_cleans_up_and_fails() {
    let mut store = ProgressStore::new();
    let mut o = Orchestrator::new(request(FormatType::Audio, Quality::Medium)).unwrap();
    o.tool_located(&Ok(ExecutableRef::BareName(String::from("yt-dlp"))));
    o.workdir_created(&mut store, true);
    o.resolve_metadata(&mut store, None);
    o.configure_extraction(&mut store);
    o.extraction_finished(&mut store, Ok(()));
    let empty = DirListing { files: vec![], subdirs: vec![] };
    o.artifact_located(&mut store, find_downloaded_file(&empty));
    assert_eq!(o.phase, Phase::Cleanup);
    o.cleanup_done(&mut store);
    assert_eq!(o.phase, Phase::Failed);
    assert!(!o.workdir_present);
    assert!(matches!(o.error, Some(DownloadError::ArtifactNotFound)));
}

#[test]
fn read_failure_cleans_up_and_fails() {
    let mut store = ProgressStore::new();
    let mut o = Orchestrator::new(request(FormatType::Video, Quality::Lowest)).unwrap();
    o.tool_located(&Ok(ExecutableRef::BareName(String::from("yt-dlp"))));
    o.workdir_created(&mut store, true);
    o.resolve_metadata(&mut store, None);
    o.configure_extraction(&mut store);
    o.extraction_finished(&mut store, Ok(()));
    let listing = DirListing {
        files: vec![FileEntry { name: String::from("video.mp4"), size: 10 }],
        subdirs: vec![],
    };
    o.artifact_located(&mut store, find_downloaded_file(&listing));
    o.artifact_read(&mut store, false);
    assert_eq!(o.phase, Phase::Cleanup);
    o.cleanup_done(&mut store);
    assert_eq!(o.phase, Phase::Failed);
    assert!(!o.workdir_present);
    assert!(matches!(o.error, Some(DownloadError::IoError(_))));
}

#[test]
fn persistence_failure_never_fails_the_download() {
    let mut store = ProgressStore::new();
    let mut o = Orchestrator::new(request(FormatType::Video, Quality::Highest)).unwrap();
    o.tool_located(&Ok(ExecutableRef::BareName(String::from("yt-dlp"))));
    o.workdir_created(&mut store, true);
    o.resolve_metadata(&mut store, None);
    o.configure_extraction(&mut store);
    o.extraction_finished(&mut store, Ok(()));
    let listing = DirListing {
        files: vec![FileEntry { name: String::from("audio.mp3"), size: 10 }],
        subdirs: vec![],
    };
    o.artifact_located(&mut store, find_downloaded_file(&listing));
    o.artifact_read(&mut store, true);
    o.persisted(&mut store, false);
    o.cleanup_done(&mut store);
    assert_eq!(o.phase, Phase::Done);
}

#[test]
fn cancellation_heads_to_cleanup_then_failed() {
    let mut store = ProgressStore::new();
    let mut o = Orchestrator::new(request(FormatType::Video, Quality::Highest)).unwrap();
    o.tool_located(&Ok(ExecutableRef::BareName(String::from("yt-dlp"))));
    o.workdir_created(&mut store, true);
    o.resolve_metadata(&mut store, None);
    o.configure_extraction(&mut store);
    o.cancel();
    assert_eq!(o.phase, Phase::Cleanup);
    o.cleanup_done(&mut store);
    assert_eq!(o.phase, Phase::Failed);
    assert!(!o.workdir_present);
    assert!(matches!(o.error, Some(DownloadError::Cancelled)));
}

#[test]
fn configuration_covers_all_pairs_and_is_pure() {
    let vh = configure(FormatType::Video, Quality::Highest);
    assert_eq!(vh.format_selector, "bestvideo[ext=mp4]+bestaudio[ext=m4a]/best[ext=mp4]");
    let vm = configure(FormatType::Video, Quality::Medium);
    assert_eq!(
        vm.format_selector,
        "bestvideo[height<=720][ext=mp4]+bestaudio[ext=m4a]/best[height<=720][ext=mp4]"
    );
    let vl = configure(FormatType::Video, Quality::Lowest);
    assert_eq!(vl.format_selector, "worstvideo[ext=mp4]+worstaudio[ext=m4a]/worst[ext=mp4]");
    assert!(!vh.extract_audio && !vm.extract_audio && !vl.extract_audio);
    assert_eq!(vh.output_template, "video");

    // Audio ignores the quality tier entirely.
    for q in [Quality::Highest, Quality::Medium, Quality::Lowest] {
        let a = configure(FormatType::Audio, q);
        assert!(a.extract_audio);
        assert_eq!(a.format_selector, "bestaudio");
        assert_eq!(a.output_template, "audio");
    }

    // Identical inputs give identical argument sets.
    let again = configure(FormatType::Video, Quality::Medium);
    assert_eq!(again.format_selector, vm.format_selector);
    assert_eq!(again.extract_audio, vm.extract_audio);
    assert_eq!(again.output_template, vm.output_template);
}

#[test]
fn request_parsing_from_strings() {
    let r = DownloadRequest::from_strings(URL, "AUDIO", "medium").expect("valid request");
    assert_eq!(r.kind, FormatType::Audio);
    assert_eq!(r.quality, Quality::Medium);
    let r = DownloadRequest::from_strings(URL, "video", "anything-else").unwrap();
    assert_eq!(r.quality, Quality::Highest);
    let e = DownloadRequest::from_strings(URL, "images", "highest").expect_err("bad format");
    assert!(matches!(e, DownloadError::InvalidInput(_)));
    let e = DownloadRequest::from_strings("ftp://nowhere", "video", "highest")
        .expect_err("bad URL");
    assert!(matches!(e, DownloadError::InvalidInput(_)));
}

#[test]
fn size_estimation_degrades_by_quality() {
    assert_eq!(best_filesize(&vec![2_000_000, 9_000_000, 5]), 9_000_000);
    assert_eq!(best_filesize(&vec![]), 0);
    assert_eq!(adjusted_estimate(5_000_000, 100, Quality::Highest), 5_000_000);
    assert_eq!(adjusted_estimate(0, 100, Quality::Highest), 51_200_000);
    assert_eq!(adjusted_estimate(0, 100, Quality::Medium), 25_600_000);
    assert_eq!(adjusted_estimate(0, 100, Quality::Lowest), 5_120_000);
    // Both unknown: the floor of one binary megabyte.
    assert_eq!(adjusted_estimate(0, 0, Quality::Highest), 1_048_576);
}

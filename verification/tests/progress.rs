use youtube_downloader::estimator::{render_status, EstimatorState, StatusCode, TickSample};
use youtube_downloader::store::{get_download_progress, ProgressStore};
use youtube_downloader::types::DownloadProgress;

fn sample(elapsed: u64, bytes: u64, partial: bool, media: bool) -> TickSample {
    TickSample {
        elapsed_seconds: elapsed,
        bytes_on_disk: bytes,
        has_partial_file: partial,
        has_media_file: media,
        tool_percent_tenths: None,
    }
}

#[test]
fn published_values_never_decrease() {
    // A deliberately noisy feed: byte counts jump back, markers flap.
    let mut est = EstimatorState::new(10, 1024 * 1024);
    let feed = [
        sample(1, 0, false, false),
        sample(2, 500_000, true, false),
        sample(3, 100_000, true, false),
        sample(4, 900_000, true, false),
        sample(10, 0, false, false),
        sample(20, 2_000_000, true, false),
        sample(30, 2_000_000, true, false),
        sample(40, 1_000, true, false),
        sample(60, 5_000_000, false, true),
        sample(70, 0, false, false),
    ];
    let mut last = est.published;
    for s in feed.iter() {
        let (percent, _eta, _code) = est.tick(s);
        assert!(percent >= last, "published value decreased");
        assert!(percent <= 100);
        last = percent;
    }
}

#[test]
fn per_tick_rise_is_capped() {
    let mut est = EstimatorState::new(10, 1024 * 1024);
    // Bytes far beyond the estimate would put the phase estimate at 80,
    // but one tick may only move five points.
    let (percent, _, _) = est.tick(&sample(50, 10 * 1024 * 1024, true, false));
    assert_eq!(percent, 15);
}

#[test]
fn stalled_download_freezes_percentage_and_says_so() {
    let mut est = EstimatorState::new(10, 100 * 1024 * 1024);
    // Bytes appear once, then never grow while the partial file remains.
    let (_, _, _) = est.tick(&sample(1, 50_000, true, false));
    let mut frozen = 0;
    let mut code = StatusCode::Waiting;
    for t in 0..10 {
        let (percent, _, c) = est.tick(&sample(2 + t, 50_000, true, false));
        frozen = percent;
        code = c;
    }
    // The tenth consecutive unchanged tick reports the stall.
    assert_eq!(code, StatusCode::Stalled);
    let (percent, _, c) = est.tick(&sample(60, 50_000, true, false));
    assert_eq!(c, StatusCode::Stalled);
    assert_eq!(percent, frozen, "a stalled tick must not move the percentage");
    let status = render_status(c, percent, "Some Video");
    assert!(status.contains("stalled"), "status was: {status}");
}

#[test]
fn growing_bytes_reset_the_stall_counter() {
    let mut est = EstimatorState::new(10, 100 * 1024 * 1024);
    est.tick(&sample(1, 50_000, true, false));
    for t in 0..9 {
        est.tick(&sample(2 + t, 50_000, true, false));
    }
    // Growth on what would have been the stalling tick keeps it a plain
    // download.
    let (_, _, c) = est.tick(&sample(20, 60_000, true, false));
    assert_eq!(c, StatusCode::Downloading);
}

#[test]
fn time_ceiling_limits_early_progress() {
    let mut est = EstimatorState::new(0, 1024 * 1024);
    let (p0, _, _) = est.tick(&sample(0, 0, false, false));
    assert_eq!(p0, 0);
    let (p1, _, _) = est.tick(&sample(1, 0, false, false));
    assert_eq!(p1, 5);
    // The initialization band itself tops out before the ceiling does.
    let (p2, _, _) = est.tick(&sample(2, 0, false, false));
    assert_eq!(p2, 7);
    let (p5, _, _) = est.tick(&sample(5, 0, false, false));
    assert_eq!(p5, 10);
}

#[test]
fn media_file_forces_processing_band() {
    let mut est = EstimatorState::new(75, 1024 * 1024);
    let (percent, eta, code) = est.tick(&sample(60, 500, false, true));
    assert_eq!(code, StatusCode::Processing);
    assert_eq!(percent, 80);
    assert_eq!(eta, 0);
    assert_eq!(render_status(code, percent, "t"), "Processing video...");
}

#[test]
fn eta_comes_from_observed_rate() {
    let mut est = EstimatorState::new(10, 2_097_152);
    let (_, eta, _) = est.tick(&sample(2, 1_000_000, true, false));
    // Rate 500000 bytes per second; 1097152 bytes remain.
    assert_eq!(eta, 2);
}

#[test]
fn eta_withheld_at_negligible_rate() {
    let mut est = EstimatorState::new(10, 2_097_152);
    let (_, eta, _) = est.tick(&sample(1000, 50_000, true, false));
    assert_eq!(eta, 0);
}

#[test]
fn tool_percentage_is_a_secondary_signal() {
    // The tool says 100%, but the time ceiling at 4 seconds holds the
    // published figure down.
    let mut est = EstimatorState::new(10, 100 * 1024 * 1024);
    let s = TickSample {
        elapsed_seconds: 4,
        bytes_on_disk: 1000,
        has_partial_file: true,
        has_media_file: false,
        tool_percent_tenths: Some(1000),
    };
    let (percent, _, _) = est.tick(&s);
    assert_eq!(percent, 15);
}

#[test]
fn extreme_samples_stay_in_range() {
    let mut est = EstimatorState::new(0, u64::MAX);
    let (p1, _, _) = est.tick(&sample(u64::MAX, u64::MAX, true, false));
    assert!(p1 <= 100);
    let (p2, _, _) = est.tick(&sample(u64::MAX, u64::MAX, false, true));
    assert!(p2 >= p1 && p2 <= 100);
}

#[test]
fn store_write_read_remove_roundtrip() {
    let mut store = ProgressStore::new();
    let rec = DownloadProgress {
        downloaded_bytes: 42,
        total_bytes: 100,
        eta_seconds: 7,
        status: String::from("Downloading: 42% of t"),
    };
    store.write(9, rec);
    let got = store.read(9).expect("record should be there");
    assert_eq!(got.downloaded_bytes, 42);
    assert_eq!(got.eta_seconds, 7);
    assert!(store.read(8).is_none());
    store.remove(9);
    assert!(store.read(9).is_none());
}

#[test]
fn store_write_replaces_whole_record() {
    let mut store = ProgressStore::new();
    let mk = |p: u64| DownloadProgress {
        downloaded_bytes: p,
        total_bytes: 100,
        eta_seconds: 0,
        status: String::from("x"),
    };
    store.write(3, mk(10));
    store.write(3, mk(50));
    assert_eq!(store.read(3).unwrap().downloaded_bytes, 50);
}

#[test]
fn poll_defaults_when_nothing_is_known() {
    let store = ProgressStore::new();
    let (d, t, e, s) = get_download_progress(&store, "https://youtu.be/abc");
    assert_eq!((d, t, e), (0, 0, 0));
    assert_eq!(s, "Initializing download...");
}

#[test]
fn poll_reads_the_stored_record() {
    let mut store = ProgressStore::new();
    let url = "https://youtu.be/abc";
    store.write(
        url.chars().count() as u64,
        DownloadProgress {
            downloaded_bytes: 55,
            total_bytes: 100,
            eta_seconds: 12,
            status: String::from("Downloading: 55% of t"),
        },
    );
    let (d, t, e, s) = get_download_progress(&store, url);
    assert_eq!((d, t, e), (55, 100, 12));
    assert_eq!(s, "Downloading: 55% of t");
}

#[test]
fn progress_record_default_is_zeroed() {
    let rec = DownloadProgress::default();
    assert_eq!(rec.downloaded_bytes, 0);
    assert_eq!(rec.total_bytes, 0);
    assert_eq!(rec.eta_seconds, 0);
    assert_eq!(rec.status, "Initializing...");
}

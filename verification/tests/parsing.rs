use youtube_downloader::parse::{parse_eta, parse_progress_line, parse_progress_percent, parse_size};
use youtube_downloader::render::{format_eta, format_speed};

#[test]
fn size_whole_megabytes() {
    assert_eq!(parse_size("10MB"), Some(10 * 1024 * 1024));
}

#[test]
fn size_fractional_megabytes() {
    assert_eq!(parse_size("12.5MB"), Some(13107200));
}

#[test]
fn size_mixed_case_binary_units() {
    assert_eq!(parse_size("10.00MiB"), Some(10 * 1024 * 1024));
    assert_eq!(parse_size("2GiB"), Some(2 * 1024 * 1024 * 1024));
    assert_eq!(parse_size("1.5KiB"), Some(1536));
}

#[test]
fn size_plain_bytes() {
    assert_eq!(parse_size("500B"), Some(500));
}

#[test]
fn size_leading_or_trailing_dot() {
    assert_eq!(parse_size(".5KB"), Some(512));
    assert_eq!(parse_size("5.KB"), Some(5120));
}

#[test]
fn size_rejects_garbage() {
    assert_eq!(parse_size("abc"), None);
    assert_eq!(parse_size(""), None);
    assert_eq!(parse_size("MB"), None);
    assert_eq!(parse_size("1.2.3MB"), None);
    assert_eq!(parse_size("12TB"), None);
}

#[test]
fn size_saturation_and_limits() {
    // The largest representable size still parses ...
    assert_eq!(parse_size("18446744073709551615B"), Some(u64::MAX));
    // ... and one byte more does not.
    assert_eq!(parse_size("18446744073709551616B"), None);
    assert_eq!(parse_size("17179869184GB"), None);
}

#[test]
fn eta_overflow_is_rejected() {
    assert_eq!(parse_eta("18446744073709551615:00"), None);
}

#[test]
fn eta_minutes_seconds() {
    assert_eq!(parse_eta("1:02"), Some(62));
}

#[test]
fn eta_hours_minutes_seconds() {
    assert_eq!(parse_eta("01:02:03"), Some(3723));
}

#[test]
fn eta_rejects_other_shapes() {
    assert_eq!(parse_eta("90"), None);
    assert_eq!(parse_eta("1:2:3:4"), None);
    assert_eq!(parse_eta("aa:bb"), None);
    assert_eq!(parse_eta(""), None);
}

#[test]
fn progress_line_full() {
    let line = "[download]  45.0% of 10.00MiB at 1.2MiB/s ETA 00:05";
    let p = parse_progress_line(line).expect("line should parse");
    assert_eq!(p.total_bytes, 10 * 1024 * 1024);
    assert_eq!(p.downloaded_bytes, 10 * 1024 * 1024 * 450 / 1000);
    assert_eq!(p.eta_seconds, 5);
    assert_eq!(p.status, "Downloading: 45.0%");
}

#[test]
fn progress_line_fraction_truncates_to_tenths() {
    let line = "[download]  45.27% of 10.00MiB at 1.2MiB/s ETA 00:05";
    let p = parse_progress_line(line).expect("line should parse");
    assert_eq!(p.status, "Downloading: 45.2%");
}

#[test]
fn progress_line_percent_only() {
    let p = parse_progress_line("[download] 99.1%").expect("line should parse");
    assert_eq!(p.total_bytes, 0);
    assert_eq!(p.downloaded_bytes, 0);
    assert_eq!(p.eta_seconds, 0);
    assert_eq!(p.status, "Downloading: 99.1%");
}

#[test]
fn progress_line_muxing() {
    let p = parse_progress_line("[Merger] Merging formats into video.mp4").expect("merger line");
    assert_eq!(p.status, "Processing video...");
    assert_eq!(p.downloaded_bytes, 0);
    let q = parse_progress_line("ffmpeg version 6.0").expect("ffmpeg line");
    assert_eq!(q.status, "Processing video...");
}

#[test]
fn progress_line_no_signal() {
    assert!(parse_progress_line("random text").is_none());
    assert!(parse_progress_line("[download] Destination: video.mp4").is_none());
    assert!(parse_progress_line("").is_none());
}

#[test]
fn progress_percent_tenths() {
    assert_eq!(
        parse_progress_percent("[download]  45.0% of 10.00MiB at 1.2MiB/s ETA 00:05"),
        Some(450)
    );
    assert_eq!(parse_progress_percent("[download] 7%"), Some(70));
    assert_eq!(parse_progress_percent("ffmpeg something"), None);
}

#[test]
fn eta_display_forms() {
    assert_eq!(format_eta(0), "calculating...");
    assert_eq!(format_eta(59), "59s");
    assert_eq!(format_eta(62), "1m 2s");
    assert_eq!(format_eta(3723), "1h 2m 3s");
}

#[test]
fn speed_display_forms() {
    assert_eq!(format_speed(512), "0.5 KB/s");
    assert_eq!(format_speed(1048576), "1.0 MB/s");
    assert_eq!(format_speed(2621440), "2.5 MB/s");
}

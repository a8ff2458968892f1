use youtube_downloader::history::{
    build_history_record, extract_video_id, generate_thumbnail_url, normalize_format_type,
    normalize_quality,
};

#[test]
fn video_id_from_watch_url() {
    assert_eq!(
        extract_video_id("https://www.youtube.com/watch?v=abc123"),
        Some(String::from("abc123"))
    );
    assert_eq!(
        extract_video_id("https://www.youtube.com/watch?t=5&v=xyz"),
        Some(String::from("xyz"))
    );
}

#[test]
fn video_id_from_short_url() {
    assert_eq!(extract_video_id("https://youtu.be/dQw4w9WgXcQ"), Some(String::from("dQw4w9WgXcQ")));
    assert_eq!(extract_video_id("https://youtu.be/abc?t=30"), Some(String::from("abc")));
}

#[test]
fn video_id_absent() {
    assert_eq!(extract_video_id("https://example.com/clip"), None);
    assert_eq!(extract_video_id("https://www.youtube.com/watch?t=5"), None);
    assert_eq!(extract_video_id("https://youtu.be/"), None);
}

#[test]
fn thumbnail_url_shape() {
    assert_eq!(generate_thumbnail_url("abc123"), "https://i.ytimg.com/vi/abc123/mqdefault.jpg");
}

#[test]
fn normalization_defaults() {
    assert_eq!(normalize_format_type(""), "video");
    assert_eq!(normalize_format_type("audio"), "audio");
    assert_eq!(normalize_quality(""), "best");
    assert_eq!(normalize_quality("medium"), "medium");
}

#[test]
fn history_record_is_fully_derived() {
    let r = build_history_record(
        "https://youtu.be/abc",
        "A Title",
        "A Title.mp4",
        "/tmp/media/A Title.mp4",
        "",
        "",
        12345,
        Some(120),
    );
    assert_eq!(r.url, "https://youtu.be/abc");
    assert_eq!(r.format_type, "video");
    assert_eq!(r.quality, "best");
    assert_eq!(r.file_size, 12345);
    assert_eq!(r.video_id, Some(String::from("abc")));
    assert_eq!(r.thumbnail_url, Some(String::from("https://i.ytimg.com/vi/abc/mqdefault.jpg")));
    assert_eq!(r.duration, Some(120));
}

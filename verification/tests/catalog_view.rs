use youtube_downloader::catalog::{count_format, filter_downloads, DownloadItem};

fn item(title: &str, filename: &str, format_type: &str, duration: Option<u64>) -> DownloadItem {
    DownloadItem {
        id: None,
        title: String::from(title),
        filename: String::from(filename),
        file_path: String::from("/media/x"),
        format_type: String::from(format_type),
        quality: String::from("highest"),
        file_size: Some(1000),
        duration,
        date_downloaded: String::from("Mon, 01 Jan 2024 14:30"),
        thumbnail_url: None,
        file_exists: true,
    }
}

fn sample_items() -> Vec<DownloadItem> {
    vec![
        item("Cat Compilation", "cats.mp4", "video", Some(65)),
        item("Podcast Episode", "podcast.mp3", "audio", Some(3725)),
        item("Lecture on Cats", "lecture.mp4", "video", None),
    ]
}

#[test]
fn all_tab_with_empty_query_shows_everything() {
    let items = sample_items();
    assert_eq!(filter_downloads(&items, "all", ""), vec![0, 1, 2]);
}

#[test]
fn tab_filters_by_format() {
    let items = sample_items();
    assert_eq!(filter_downloads(&items, "video", ""), vec![0, 2]);
    assert_eq!(filter_downloads(&items, "audio", ""), vec![1]);
    assert_eq!(filter_downloads(&items, "other", ""), Vec::<usize>::new());
}

#[test]
fn search_matches_titles_and_filenames_case_insensitively() {
    let items = sample_items();
    assert_eq!(filter_downloads(&items, "all", "CATS"), vec![0, 2]);
    assert_eq!(filter_downloads(&items, "all", "podcast.mp3"), vec![1]);
    assert_eq!(filter_downloads(&items, "video", "cats"), vec![0, 2]);
    assert_eq!(filter_downloads(&items, "audio", "cats"), Vec::<usize>::new());
}

#[test]
fn counts_by_format() {
    let items = sample_items();
    assert_eq!(count_format(&items, "video"), 2);
    assert_eq!(count_format(&items, "audio"), 1);
    assert_eq!(count_format(&items, "webm"), 0);
}

#[test]
fn duration_display() {
    let items = sample_items();
    assert_eq!(items[0].format_duration(), "1:05");
    assert_eq!(items[1].format_duration(), "1:02:05");
    assert_eq!(items[2].format_duration(), "Unknown");
}

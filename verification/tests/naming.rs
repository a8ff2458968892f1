use youtube_downloader::naming::{create_clean_filename, update_filename};
use youtube_downloader::types::{FormatType, Quality};

#[test]
fn clean_filename_replaces_forbidden_characters() {
    assert_eq!(create_clean_filename("a/b:c", "mp4"), "a_b_c.mp4");
    assert_eq!(create_clean_filename("what? \"quotes\" <here>|", "mp3"), "what_ _quotes_ _here__.mp3");
}

#[test]
fn clean_filename_empty_title_falls_back() {
    assert_eq!(create_clean_filename("", "mp3"), "video.mp3");
}

#[test]
fn clean_filename_keeps_ordinary_titles() {
    assert_eq!(create_clean_filename("My Title 2024", "webm"), "My Title 2024.webm");
}

#[test]
fn update_filename_swaps_extension() {
    assert_eq!(update_filename("song.webm", &FormatType::Audio), "song.mp3");
    assert_eq!(update_filename("clip.old.mp3", &FormatType::Video), "clip.mp4");
}

#[test]
fn update_filename_adds_extension_when_none() {
    assert_eq!(update_filename("noext", &FormatType::Video), "noext.mp4");
}

#[test]
fn update_filename_empty_stays_empty() {
    assert_eq!(update_filename("", &FormatType::Audio), "");
}

#[test]
fn extension_check_ignores_case() {
    assert!(FormatType::Video.has_valid_extension("movie.MP4"));
    assert!(FormatType::Audio.has_valid_extension("song.mp3"));
    assert!(!FormatType::Video.has_valid_extension("song.mp3"));
    assert!(!FormatType::Audio.has_valid_extension("mp3"));
}

#[test]
fn format_names_and_types() {
    assert_eq!(FormatType::Video.to_string(), "video");
    assert_eq!(FormatType::Audio.to_string(), "audio");
    assert_eq!(FormatType::Video.get_extension(), "mp4");
    assert_eq!(FormatType::Audio.get_extension(), "mp3");
    assert_eq!(FormatType::Video.get_mime_type(), "video/mp4");
    assert_eq!(FormatType::Audio.get_mime_type(), "audio/mpeg");
    assert_eq!(Quality::Highest.to_string(), "highest");
    assert_eq!(Quality::Medium.to_string(), "medium");
    assert_eq!(Quality::Lowest.to_string(), "lowest");
}

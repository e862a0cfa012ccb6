use media_organizer::category::{classify, is_image, is_video, same_text, MediaCategory};
use media_organizer::date_pattern::{DatePattern, DATE_PATTERN, YEAR_GROUP};
use media_organizer::file_name::{file_extension, lowered_extension};

fn year(name: &str) -> Option<String> {
    DatePattern::new().unwrap().find_year(name)
}

#[test]
fn every_image_extension_is_an_image() {
    for ext in ["jpg", "jpeg", "png", "gif", "bmp", "webp"] {
        assert_eq!(classify(ext), Some(MediaCategory::Images));
        assert!(is_image(ext));
        assert!(!is_video(ext));
    }
}

#[test]
fn every_video_extension_is_a_video() {
    for ext in ["mp4", "mov", "avi", "mkv", "wmv", "flv"] {
        assert_eq!(classify(ext), Some(MediaCategory::Videos));
        assert!(is_video(ext));
        assert!(!is_image(ext));
    }
}

#[test]
fn other_extensions_have_no_category() {
    for ext in ["", "txt", "JPG", "jpg ", "jp", "jpgg", "mp3", "tiff", "heic", "pdf"] {
        assert_eq!(classify(ext), None);
    }
}

#[test]
fn folder_names_are_images_and_videos() {
    assert_eq!(MediaCategory::Images.folder_name(), "images");
    assert_eq!(MediaCategory::Videos.folder_name(), "videos");
}

#[test]
fn same_text_compares_characters() {
    assert!(same_text("", ""));
    assert!(same_text("abc", "abc"));
    assert!(!same_text("abc", "abd"));
    assert!(!same_text("abc", "ab"));
}

#[test]
fn extension_is_what_follows_the_last_dot() {
    assert_eq!(file_extension("photo.jpg"), Some("jpg".to_string()));
    assert_eq!(file_extension("archive.tar.gz"), Some("gz".to_string()));
    assert_eq!(file_extension("Photo.JPG"), Some("JPG".to_string()));
    assert_eq!(file_extension("trailing."), Some("".to_string()));
    assert_eq!(file_extension(".a.b"), Some("b".to_string()));
    assert_eq!(file_extension("..."), Some("".to_string()));
    assert_eq!(file_extension("\u{00e9}t\u{00e9}.png"), Some("png".to_string()));
}

#[test]
fn some_names_have_no_extension() {
    assert_eq!(file_extension(""), None);
    assert_eq!(file_extension("Makefile"), None);
    assert_eq!(file_extension(".profile"), None);
    assert_eq!(file_extension("."), None);
    assert_eq!(file_extension(".."), None);
}

#[test]
fn extension_agrees_with_the_standard_library() {
    for name in ["a.b", "a", ".a", "a.", "a.b.c", "..a", "a..", ".a.", "...", "x.tar.GZ"] {
        let expected = std::path::Path::new(name)
            .extension()
            .map(|ext| ext.to_string_lossy().into_owned());
        assert_eq!(file_extension(name), expected, "{}", name);
    }
}

#[test]
fn lowered_extension_is_in_lower_case() {
    assert_eq!(lowered_extension("Photo.JPG"), Some("jpg".to_string()));
    assert_eq!(lowered_extension("clip.MoV"), Some("mov".to_string()));
    assert_eq!(lowered_extension("clip.m\u{212A}v"), Some("mkv".to_string()));
    assert_eq!(lowered_extension("PHOTO"), None);
}

#[test]
fn the_date_pattern_compiles() {
    assert!(DatePattern::new().is_ok());
    assert_eq!(DATE_PATTERN, r"(?i)(20\d{2})[-_]?(\d{2})[-_]?(\d{2})");
    assert_eq!(YEAR_GROUP, 1);
}

#[test]
fn year_is_found_with_any_separator() {
    assert_eq!(year("20231225"), Some("2023".to_string()));
    assert_eq!(year("2023-12-25"), Some("2023".to_string()));
    assert_eq!(year("2023_12_25"), Some("2023".to_string()));
    assert_eq!(year("2023-12_25"), Some("2023".to_string()));
    assert_eq!(year("202312-25"), Some("2023".to_string()));
    assert_eq!(year("IMG_20190704_101500.jpg"), Some("2019".to_string()));
}

#[test]
fn year_is_taken_as_written() {
    assert_eq!(year("x2000-01-01"), Some("2000".to_string()));
    assert_eq!(year("x2099-12-31"), Some("2099".to_string()));
    assert_eq!(year("x2023-99-99"), Some("2023".to_string()));
    assert_eq!(year("x2023-00-00"), Some("2023".to_string()));
    assert_eq!(year("pic_20\u{0662}\u{0663}-01-01"), Some("20\u{0662}\u{0663}".to_string()));
}

#[test]
fn the_first_date_in_the_name_counts() {
    assert_eq!(year("a_2021-01-01_b_2022-02-02.jpg"), Some("2021".to_string()));
    assert_eq!(year("120230101.jpg"), Some("2023".to_string()));
    assert_eq!(year("2020230101.jpg"), Some("2020".to_string()));
    assert_eq!(year("1999-01-01_2024-01-01"), Some("2024".to_string()));
}

#[test]
fn names_without_a_date_have_no_year() {
    assert_eq!(year(""), None);
    assert_eq!(year("random_photo.png"), None);
    assert_eq!(year("1999-12-31.jpg"), None);
    assert_eq!(year("2023.jpg"), None);
    assert_eq!(year("2023-1-01.jpg"), None);
    assert_eq!(year("2023/12/25"), None);
    assert_eq!(year("2023--12-25"), None);
    assert_eq!(year("2023 12 25"), None);
    assert_eq!(year("202312"), None);
}

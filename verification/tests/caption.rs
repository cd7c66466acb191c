use slideshow::caption::{clean, derive_caption, is_settled, stem};
use slideshow::path::ImagePath;
use slideshow::state::AppState;

fn caption(path: &str, root: Option<&str>) -> Option<String> {
    derive_caption(&ImagePath::from_text(path), root)
}

#[test]
fn test_filename_to_description() {
    let pictures_base = "/base/path";
    assert_eq!(
        AppState::filename_to_description(
            &ImagePath::from_text("/base/path/2025-02 Skiing - La Rosiere/IMG_9969.jpg"),
            Some(pictures_base)
        ),
        Some("Skiing - La Rosiere".to_string())
    );
    assert_eq!(
        AppState::filename_to_description(
            &ImagePath::from_text("/base/path/2024-12 December-20241224T100546-019.jpg"),
            Some(pictures_base)
        ),
        Some("December".to_string())
    );
    assert_eq!(
        AppState::filename_to_description(
            &ImagePath::from_text("/base/path/2024-12-25 Christmas-20241224T100546-019.jpg"),
            Some(pictures_base)
        ),
        Some("Christmas".to_string())
    );
}

#[test]
fn caption_keeps_the_directory_of_an_event() {
    let root = Some("resources/test");
    assert_eq!(
        caption("resources/test/2025-02 Skiing - La Rosiere/IMG_9969.jpg", root),
        Some("Skiing - La Rosiere".to_string())
    );
    let rome = caption("resources/test/2024-10 Rome/20241028T100833-061.jpg", root).unwrap();
    assert!(rome.starts_with("Rome"));
    assert_eq!(rome, "Rome/061");
}

#[test]
fn caption_of_a_file_name_alone() {
    assert_eq!(
        caption("2024-12 December-20241224T100546-019.jpg", None),
        Some("December".to_string())
    );
    assert_eq!(
        caption("/any/where/2024-12 December-20241224T100546-019.jpg", None),
        Some("December".to_string())
    );
    assert_eq!(caption("2025-02 Skiing -IMG_0325.jpg", None), Some("Skiing".to_string()));
}

#[test]
fn caption_without_a_file_name_is_missing() {
    assert_eq!(caption("/base/path/..", None), None);
    assert_eq!(caption("/", None), None);
}

#[test]
fn caption_outside_the_root_is_missing() {
    assert_eq!(caption("/other/2024-12 December.jpg", Some("/base/path")), None);
    assert_eq!(caption("/base/pathology/x.jpg", Some("/base/path")), None);
}

#[test]
fn caption_of_a_path_that_is_no_text_is_missing() {
    let path = ImagePath {
        raw: vec![0x2f, 0x62, 0x2f, 0x66, 0xff, 0x2e, 0x6a, 0x70, 0x67],
        text: "/b/f\u{fffd}.jpg".to_string(),
    };
    assert!(!path.is_exact());
    assert_eq!(derive_caption(&path, Some("/b")), None);
    assert_eq!(derive_caption(&path, None), None);
    let exact = ImagePath::from_text("/b/f\u{fffd}.jpg");
    assert!(exact.is_exact());
    assert_eq!(derive_caption(&exact, Some("/b")), Some("f".to_string()));
}

#[test]
fn a_dot_in_a_directory_stays_in_the_caption() {
    assert_eq!(
        AppState::filename_to_description(
            &ImagePath::from_text("/base/path/2024-10 St. Moritz/IMG_0001.jpg"),
            Some("/base/path")
        ),
        Some("St. Moritz".to_string())
    );
    assert_eq!(
        caption("/base/path/2024-10 St. Moritz/Lake.One.jpg", Some("/base/path")),
        Some("St. Moritz/Lake.One".to_string())
    );
    assert_eq!(caption("/base/path/a.b/c.jpg", Some("/base/path")), Some("a.b/c".to_string()));
    assert_eq!(caption("/base/path/a.b/c", Some("/base/path")), Some("a.b/c".to_string()));
    assert_eq!(caption("/base/path/a.b/c.jpg", None), Some("c".to_string()));
}

#[test]
fn clean_takes_the_extension_of_the_file_only() {
    assert_eq!(clean("Holiday.jpg"), Some("Holiday".to_string()));
    assert_eq!(clean("Holiday.tar.gz"), Some("Holiday.tar".to_string()));
    assert_eq!(clean("a.b/c.jpg"), Some("a.b/c".to_string()));
    assert_eq!(clean("a.b/c"), Some("a.b/c".to_string()));
    assert_eq!(clean("Holiday."), Some("Holiday".to_string()));
    assert_eq!(clean("Holiday"), Some("Holiday".to_string()));
    assert_eq!(stem("2024-10 St. Moritz/IMG_0001.jpg"), "2024-10 St. Moritz/IMG_0001");
    assert_eq!(stem("2024-10 St. Moritz/IMG_0001"), "2024-10 St. Moritz/IMG_0001");
    assert_eq!(stem("Holiday.tar.gz"), "Holiday.tar");
    assert_eq!(stem(".hidden"), ".hidden");
    assert_eq!(stem("plain"), "plain");
    assert_eq!(stem(""), "");
}

#[test]
fn clean_deletes_a_leading_day_or_month() {
    assert_eq!(clean("2024-12-25 Christmas"), Some("Christmas".to_string()));
    assert_eq!(clean("2024-12-25-Christmas"), Some("Christmas".to_string()));
    assert_eq!(clean("2024-12 December"), Some("December".to_string()));
    assert_eq!(clean("2024-12-December"), Some("December".to_string()));
    assert_eq!(clean("In 2024-12 December"), Some("In 2024-12 December".to_string()));
    assert_eq!(clean("2024-1 January"), Some("2024-1 January".to_string()));
}

#[test]
fn clean_deletes_timestamps_everywhere() {
    assert_eq!(clean("a20241224T100546-b20250101T000000-c"), Some("abc".to_string()));
    assert_eq!(clean("a20241224T100546b"), Some("a20241224T100546b".to_string()));
}

#[test]
fn clean_deletes_a_trailing_sequence_number() {
    assert_eq!(clean("Party-019"), Some("Party".to_string()));
    assert_eq!(clean("Party-0190"), Some("Party-0190".to_string()));
    assert_eq!(clean("Party-019-x"), Some("Party-019-x".to_string()));
}

#[test]
fn clean_deletes_camera_names() {
    assert_eq!(clean("Beach IMG_1234"), Some("Beach".to_string()));
    assert_eq!(clean("Beach DCS_0042"), Some("Beach".to_string()));
    assert_eq!(clean("IMG_1234x"), Some("x".to_string()));
    assert_eq!(clean("xIMG_12345y"), Some("x5y".to_string()));
    assert_eq!(clean("IMG_123"), Some("IMG_123".to_string()));
}

#[test]
fn clean_trims_what_is_neither_letter_nor_digit() {
    assert_eq!(clean(" - Skiing - La Rosiere -/"), Some("Skiing - La Rosiere".to_string()));
    assert_eq!(clean("--"), Some("".to_string()));
    assert_eq!(clean(""), Some("".to_string()));
    assert_eq!(clean("\u{e9}t\u{e9}"), Some("t".to_string()));
}

#[test]
fn clean_applies_the_deletions_in_their_order() {
    // The month goes before the timestamp, the timestamp before the
    // sequence number, and the edges are trimmed last.
    assert_eq!(clean("2024-12 December-20241224T100546-019.jpg"), Some("December".to_string()));
    assert_eq!(clean("2025-02 Skiing -IMG_0325.jpg"), Some("Skiing".to_string()));
    // A day is tried before a month, so a day never loses its month only.
    assert_eq!(clean("2024-12-25 x"), Some("x".to_string()));
}

#[test]
fn cleaning_a_caption_again_changes_nothing() {
    for name in [
        "2024-12 December-20241224T100546-019.jpg",
        "2025-02 Skiing - La Rosiere/IMG_9969.jpg",
        "2024-10 Rome/20241028T100833-061.jpg",
        "2024-12-25 Christmas-20241224T100546-019.jpg",
        "2025-02 Skiing -IMG_0325.jpg",
    ] {
        let once = clean(name).unwrap();
        let twice = clean(&once).unwrap();
        assert!(is_settled(&once));
        assert_eq!(once, twice);
    }
}

#[test]
fn a_text_is_settled_where_no_deletion_changes_it() {
    assert!(is_settled("December"));
    assert!(is_settled("Skiing - La Rosiere"));
    assert!(is_settled("Rome/061"));
    assert!(is_settled(""));
    assert!(!is_settled("December.jpg"));
    assert!(!is_settled("2024-12 x"));
    assert!(!is_settled("2024-12-25 x"));
    assert!(!is_settled("x20241224T100546-y"));
    assert!(!is_settled("x-019"));
    assert!(!is_settled("xIMG_1234y"));
    assert!(!is_settled("xDCS_1234y"));
    assert!(!is_settled(" x"));
    // What is settled comes out of the chain as it went in.
    for text in ["December", "Skiing - La Rosiere", "Rome/061", "", "a b-c_d"] {
        assert!(is_settled(text));
        assert_eq!(clean(text), Some(text.to_string()));
    }
}

#[test]
fn cleaning_again_goes_on_where_a_match_was_left() {
    let once = clean("2024-12 2024-12 x.jpg").unwrap();
    assert_eq!(once, "2024-12 x");
    assert!(!is_settled(&once));
    assert_eq!(clean(&once), Some("x".to_string()));
    // A caption with a dot in it reads as a name with an extension.
    let moritz = clean("2024-10 St. Moritz/IMG_0001.jpg").unwrap();
    assert_eq!(moritz, "St. Moritz");
    assert!(!is_settled(&moritz));
    assert_eq!(clean(&moritz), Some("St".to_string()));
}

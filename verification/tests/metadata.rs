use slideshow::capture::{day_of, display_date, extract_date};
use slideshow::catalog::Walked;
use slideshow::error::SlideshowError;
use slideshow::metadata::ImageMetadata;
use slideshow::path::ImagePath;
use slideshow::state::AppState;

fn field(tag: u16, kind: u16, count: u32, value: u32) -> Vec<u8> {
    let mut bytes = Vec::new();
    bytes.extend_from_slice(&tag.to_le_bytes());
    bytes.extend_from_slice(&kind.to_le_bytes());
    bytes.extend_from_slice(&count.to_le_bytes());
    bytes.extend_from_slice(&value.to_le_bytes());
    bytes
}

fn stamp_bytes(stamp: &str) -> Vec<u8> {
    let mut bytes = stamp.as_bytes().to_vec();
    bytes.push(0);
    bytes
}

/// A JPEG file that holds nothing but metadata: the time at which the image
/// was taken and the time at which the file was changed, as far as given.
fn jpeg(taken: Option<&str>, changed: Option<&str>) -> Vec<u8> {
    let fields = taken.is_some() as u32 + changed.is_some() as u32;
    let mut data_at = 8 + 2 + 12 * fields + 4;
    let mut tiff = vec![0x49, 0x49, 0x2a, 0x00, 0x08, 0x00, 0x00, 0x00];
    tiff.extend_from_slice(&(fields as u16).to_le_bytes());
    let mut data = Vec::new();
    if let Some(stamp) = changed {
        let text = stamp_bytes(stamp);
        tiff.extend(field(0x0132, 2, text.len() as u32, data_at));
        data_at += text.len() as u32;
        data.extend(text);
    }
    if let Some(stamp) = taken {
        let text = stamp_bytes(stamp);
        tiff.extend(field(0x8769, 4, 1, data_at));
        data.extend_from_slice(&1u16.to_le_bytes());
        data.extend(field(0x9003, 2, text.len() as u32, data_at + 2 + 12 + 4));
        data.extend_from_slice(&0u32.to_le_bytes());
        data.extend(text);
    }
    tiff.extend_from_slice(&0u32.to_le_bytes());
    tiff.extend(data);

    let mut file = vec![0xff, 0xd8, 0xff, 0xe1];
    file.extend_from_slice(&((2 + 6 + tiff.len()) as u16).to_be_bytes());
    file.extend_from_slice(b"Exif\0\0");
    file.extend(tiff);
    file.extend_from_slice(&[0xff, 0xd9]);
    file
}

fn state_with_two_images() -> AppState {
    let mut state = AppState::new();
    let walk = vec![
        Walked::Found { path: ImagePath::from_text("resources/test"), is_file: false },
        Walked::Found {
            path: ImagePath::from_text("resources/test/2024-10 Rome/20241028T100833-061.jpg"),
            is_file: true,
        },
        Walked::Found {
            path: ImagePath::from_text("resources/test/2025-02 Skiing -IMG_0325.jpg"),
            is_file: true,
        },
    ];
    state.set_path("resources/test", &walk).unwrap();
    state
}

#[test]
fn test_metadata() {
    let state = state_with_two_images();
    let file0 = jpeg(Some("2024:10:28 10:08:33"), Some("2024:11:02 18:00:00"));
    let file1 = jpeg(Some("2025:02:16 12:30:00"), None);

    let metadata0 = state.get_image_metadata(0, Some(file0.as_slice())).unwrap();
    let metadata1 = state.get_image_metadata(1, Some(file1.as_slice())).unwrap();
    assert_eq!(metadata0.date.unwrap(), "Mon 28 Oct 2024");
    assert_eq!(metadata1.date.unwrap(), "Sun 16 Feb 2025");
}

#[test]
fn metadata_joins_the_day_and_the_caption() {
    let state = state_with_two_images();
    let file = jpeg(Some("2024:10:28 10:08:33"), None);
    let metadata = state.get_image_metadata(0, Some(file.as_slice())).unwrap();
    assert_eq!(metadata.date, Some("Mon 28 Oct 2024".to_string()));
    assert_eq!(metadata.description, Some("Rome/061".to_string()));
    // The index wraps as it does for the image itself.
    let wrapped = state.get_image_metadata(2, Some(file.as_slice())).unwrap();
    assert_eq!(wrapped.description, Some("Rome/061".to_string()));
}

#[test]
fn a_file_without_metadata_has_a_caption_only() {
    let state = state_with_two_images();
    let plain = [0xff, 0xd8, 0xff, 0xd9];
    let metadata = state.get_image_metadata(1, Some(plain.as_slice())).unwrap();
    assert_eq!(metadata.date, None);
    assert_eq!(metadata.description, Some("Skiing".to_string()));
    let nothing = state.get_image_metadata(1, Some(b"".as_slice())).unwrap();
    assert_eq!(nothing.date, None);
    assert_eq!(nothing.description, Some("Skiing".to_string()));
    let text = state.get_image_metadata(1, Some(b"no image at all".as_slice())).unwrap();
    assert_eq!(text.date, None);
    assert_eq!(text.description, Some("Skiing".to_string()));
}

#[test]
fn a_file_that_cannot_be_read_is_an_error() {
    let state = state_with_two_images();
    assert_eq!(state.get_image_metadata(0, None).unwrap_err(), SlideshowError::Unreadable);
    let path = ImagePath::from_text("/p/a.jpg");
    assert_eq!(
        ImageMetadata::after_read(&path, Some("/p"), None).unwrap_err(),
        SlideshowError::Unreadable
    );
}

#[test]
fn an_empty_catalog_has_no_metadata() {
    let state = AppState::new();
    let file = jpeg(Some("2024:10:28 10:08:33"), None);
    assert_eq!(
        state.get_image_metadata(0, Some(file.as_slice())).unwrap_err(),
        SlideshowError::EmptyCatalog
    );
    assert_eq!(state.get_image_metadata(0, None).unwrap_err(), SlideshowError::EmptyCatalog);
}

#[test]
fn both_parts_of_the_metadata_may_be_missing() {
    let path = ImagePath::from_text("/elsewhere/2024-12 December.jpg");
    let made = ImageMetadata::describe(&path, Some("/p"), b"");
    assert_eq!(made.date, None);
    assert_eq!(made.description, None);
}

#[test]
fn the_time_taken_comes_before_the_time_changed() {
    let both = jpeg(Some("2024:10:28 10:08:33"), Some("2024:11:02 18:00:00"));
    assert_eq!(extract_date(&both), Some("2024-10-28 10:08:33".to_string()));
    let changed = jpeg(None, Some("2024:11:02 18:00:00"));
    assert_eq!(extract_date(&changed), Some("2024-11-02 18:00:00".to_string()));
    let taken = jpeg(Some("2025:02:16 12:30:00"), None);
    assert_eq!(extract_date(&taken), Some("2025-02-16 12:30:00".to_string()));
    let neither = jpeg(None, None);
    assert_eq!(extract_date(&neither), None);
    assert_eq!(extract_date(b"\xff\xd8\xff\xd9"), None);
    assert_eq!(extract_date(b""), None);
}

#[test]
fn a_day_is_shown_with_its_weekday_and_month() {
    assert_eq!(display_date("2024-10-28 10:08:33"), Some("Mon 28 Oct 2024".to_string()));
    assert_eq!(display_date("2025-02-16 00:00:00"), Some("Sun 16 Feb 2025".to_string()));
    assert_eq!(display_date("2000-01-01 23:59:59"), Some("Sat 01 Jan 2000".to_string()));
    assert_eq!(display_date("2024-02-29 12:00:00"), Some("Thu 29 Feb 2024".to_string()));
}

#[test]
fn a_text_that_is_no_time_shows_no_day() {
    assert_eq!(display_date("unknown"), None);
    assert_eq!(display_date(""), None);
    assert_eq!(display_date("2024-10-28"), None);
    assert_eq!(display_date("2024-13-01 00:00:00"), None);
    assert_eq!(display_date("2023-02-29 12:00:00"), None);
    assert_eq!(display_date("2024:10:28 10:08:33"), None);
    assert_eq!(day_of(None), None);
    assert_eq!(day_of(Some("nonsense".to_string())), None);
    assert_eq!(day_of(Some("2024-10-28 10:08:33".to_string())), Some("Mon 28 Oct 2024".to_string()));
}

#[test]
fn a_blank_time_in_the_file_shows_no_day() {
    let state = state_with_two_images();
    let blank = jpeg(Some("    :  :     :  :  "), None);
    assert_eq!(extract_date(&blank), Some("unknown".to_string()));
    let metadata = state.get_image_metadata(0, Some(blank.as_slice())).unwrap();
    assert_eq!(metadata.date, None);
    assert_eq!(metadata.description, Some("Rome/061".to_string()));
}

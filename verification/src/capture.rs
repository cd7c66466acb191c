//! The day an image was taken, read from the metadata that the camera put
//! into the file.

use crate::path::text_view;
use std::fmt::Write;
use std::io::Cursor;
use vstd::prelude::*;

verus! {

/// The groups of tags that an image's metadata is made of.
#[derive(Debug, Clone, Copy, PartialEq, Eq, Structural)]
pub enum TagGroup {
    /// What TIFF defines.
    Tiff,
    /// What Exif adds for cameras.
    Exif,
    /// Where the image was taken.
    Gps,
    /// Interoperability.
    Interop,
}

/// The tag for the time at which the image was taken, among those of
/// [`TagGroup::Exif`].
pub const TAKEN_TAG: u16 = 0x9003;

/// The tag for the time at which the file was last changed, among those of
/// [`TagGroup::Tiff`].
pub const CHANGED_TAG: u16 = 0x0132;

/// The number of the image itself among the images in a file; the next is
/// its thumbnail.
pub const MAIN_IMAGE: u16 = 0;

/// How a time is written in an image's metadata, once it is made readable.
pub const STAMP_FORMAT: &'static str = "%Y-%m-%d %H:%M:%S";

/// How a day is shown.
pub const DAY_FORMAT: &'static str = "%a %d %h %Y";

/// What the `exif` crate finds in the contents of a file for one tag of one
/// of its images, in the readable form that the crate gives values of that
/// tag: `None` where it finds no metadata that it can read (from
/// `exif::Reader::read_from_container`), `Some(None)` where the metadata
/// has no such field (from `exif::Exif::get_field`), else the field's text
/// (from `exif::Field::display_value`).
pub uninterp spec fn embedded_text(contents: Seq<u8>, group: TagGroup, number: u16, image: u16)
    -> Option<Option<Seq<char>>>;

/// What `chrono` makes of a time: `stamp` read by
/// `chrono::NaiveDateTime::parse_from_str` in the format `read_as` and
/// written by `chrono::NaiveDateTime::format` in the format `shown_as`;
/// `None` where the text is no such time, or where `shown_as` is no format.
pub uninterp spec fn reformatted(stamp: Seq<char>, read_as: Seq<char>, shown_as: Seq<char>)
    -> Option<Seq<char>>;

/// What was read for a tag, as a mathematical value.
pub open spec fn tag_view(read: Option<Option<String>>) -> Option<Option<Seq<char>>> {
    match read {
        Some(field) => Some(text_view(field)),
        None => None,
    }
}

/// Has the `exif` crate read the metadata in the contents of a file
/// (`exif::Reader::read_from_container`), look up one field in it
/// (`exif::Exif::get_field`) and make its value readable
/// (`exif::Field::display_value`). Nothing is proved of what comes back: the
/// contract only gives it its name.
#[verifier::external_body]
fn read_tag(contents: &[u8], group: TagGroup, number: u16, image: u16) -> (read: Option<
    Option<String>,
>)
    ensures
        tag_view(read) == embedded_text(contents@, group, number, image),
{
    let context = match group {
        TagGroup::Tiff => exif::Context::Tiff,
        TagGroup::Exif => exif::Context::Exif,
        TagGroup::Gps => exif::Context::Gps,
        TagGroup::Interop => exif::Context::Interop,
    };
    match exif::Reader::new().read_from_container(&mut Cursor::new(contents)) {
        Ok(found) => Some(
            found.get_field(exif::Tag(context, number), exif::In(image)).map(
                |field| field.display_value().to_string(),
            ),
        ),
        Err(_) => None,
    }
}

/// Has `chrono` read a time (`chrono::NaiveDateTime::parse_from_str`) and
/// write it in another format (`chrono::NaiveDateTime::format`). Nothing is
/// proved of what comes back: the contract only gives it its name.
#[verifier::external_body]
fn reformat(stamp: &str, read_as: &str, shown_as: &str) -> (shown: Option<String>)
    ensures
        text_view(shown) == reformatted(stamp@, read_as@, shown_as@),
{
    let mut shown = String::new();
    match chrono::NaiveDateTime::parse_from_str(stamp, read_as) {
        Ok(time) => match write!(shown, "{}", time.format(shown_as)) {
            Ok(()) => Some(shown),
            Err(_) => None,
        },
        Err(_) => None,
    }
}

/// The time in an image's metadata: the time at which the image was taken
/// where the metadata has it, else the time at which the file was last
/// changed, else none. Contents that hold no readable metadata hold no
/// time.
pub open spec fn embedded_time(contents: Seq<u8>) -> Option<Seq<char>> {
    match embedded_text(contents, TagGroup::Exif, TAKEN_TAG, MAIN_IMAGE) {
        Some(Some(taken)) => Some(taken),
        Some(None) => match embedded_text(contents, TagGroup::Tiff, CHANGED_TAG, MAIN_IMAGE) {
            Some(Some(changed)) => Some(changed),
            Some(None) => None,
            None => None,
        },
        None => None,
    }
}

/// The day on which a time falls, as it is shown; none where the text is no
/// time.
pub open spec fn shown_day(stamp: Seq<char>) -> Option<Seq<char>> {
    reformatted(stamp, STAMP_FORMAT@, DAY_FORMAT@)
}

/// The day on which an image was taken, as it is shown.
pub open spec fn taken_on(contents: Seq<u8>) -> Option<Seq<char>> {
    match embedded_time(contents) {
        Some(stamp) => shown_day(stamp),
        None => None,
    }
}

/// The time in an image's metadata: see [`embedded_time`].
pub fn extract_date(contents: &[u8]) -> (stamp: Option<String>)
    ensures
        text_view(stamp) == embedded_time(contents@),
{
    match read_tag(contents, TagGroup::Exif, TAKEN_TAG, MAIN_IMAGE) {
        Some(Some(taken)) => Some(taken),
        Some(None) => match read_tag(contents, TagGroup::Tiff, CHANGED_TAG, MAIN_IMAGE) {
            Some(Some(changed)) => Some(changed),
            Some(None) => None,
            None => None,
        },
        None => None,
    }
}

/// The day on which a time falls, as it is shown: see [`shown_day`].
pub fn display_date(stamp: &str) -> (day: Option<String>)
    ensures
        text_view(day) == shown_day(stamp@),
{
    reformat(stamp, STAMP_FORMAT, DAY_FORMAT)
}

/// The day to show for the time that was found in an image, if one was.
pub fn day_of(stamp: Option<String>) -> (day: Option<String>)
    ensures
        text_view(day) == match text_view(stamp) {
            Some(time) => shown_day(time),
            None => None,
        },
{
    match stamp {
        Some(time) => display_date(time.as_str()),
        None => None,
    }
}

} // verus!

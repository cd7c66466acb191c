//! Paths of image files as plain values.

use std::path::Path;
use vstd::prelude::*;
use vstd::string::*;
use vstd::utf8::encode_utf8;

verus! {

/// The mathematical value of an [`ImagePath`].
pub struct PathView {
    /// The path as the platform encodes it.
    pub raw: Seq<u8>,
    /// The path as text.
    pub text: Seq<char>,
}

impl PathView {
    /// Whether the text is the path itself: it encodes to the raw bytes.
    pub open spec fn is_exact(self) -> bool {
        self.raw == encode_utf8(self.text)
    }
}

/// The path of a file: its bytes as the platform encodes them, by which the
/// file is opened, and the same path as text, from which its extension and
/// its caption are read. Where the bytes are no valid text, `text` holds a
/// readable stand-in and the path is not exact.
#[derive(Debug)]
pub struct ImagePath {
    pub raw: Vec<u8>,
    pub text: String,
}

impl View for ImagePath {
    type V = PathView;

    open spec fn view(&self) -> PathView {
        PathView { raw: self.raw@, text: self.text@ }
    }
}

/// A text that may be missing, as a mathematical value.
pub open spec fn text_view(text: Option<String>) -> Option<Seq<char>> {
    match text {
        Some(text) => Some(text@),
        None => None,
    }
}

/// What `std::path::Path::strip_prefix` leaves of `path` below `base`, as
/// text; `None` where `base` is no prefix of `path`. Paths are read as the
/// platform that the library is built for reads them: on that platform the
/// result depends on the two texts alone, and another platform may split
/// the same text into other components.
pub uninterp spec fn stripped_prefix(path: Seq<char>, base: Seq<char>) -> Option<Seq<char>>;

/// What `std::path::Path::file_name` finds in `path`: its last component, as
/// text; `None` where the path has none. Paths are read as the platform
/// that the library is built for reads them: on that platform the result
/// depends on the text alone.
pub uninterp spec fn file_name_of(path: Seq<char>) -> Option<Seq<char>>;

/// What `std::path::Path::with_extension` makes of `path` and `extension`,
/// as text: the path with the extension of its last component replaced;
/// with an empty `extension`, the path without that extension. Paths are
/// read as the platform that the library is built for reads them: on that
/// platform the result depends on the two texts alone.
pub uninterp spec fn with_extension_of(path: Seq<char>, extension: Seq<char>) -> Seq<char>;

/// Whether a text holds a character that separates the components of a
/// path on some platform.
pub open spec fn holds_separator(text: Seq<char>) -> bool {
    text.contains('/') || text.contains('\\')
}

/// The extension in a file's name, as `std::path::Path::extension` has it:
/// what follows the name's last dot. A name without a dot has none, nor has
/// one whose only dot comes first.
pub open spec fn extension_in(name: Seq<char>) -> Option<Seq<char>> {
    match name.index_of_last('.') {
        Some(dot) => if dot == 0 {
            None
        } else {
            Some(name.skip(dot + 1))
        },
        None => None,
    }
}

/// The extension of the file that `path` names.
pub open spec fn extension_of(path: Seq<char>) -> Option<Seq<char>> {
    match file_name_of(path) {
        Some(name) => extension_in(name),
        None => None,
    }
}

/// Calls `std::path::Path::strip_prefix` on two paths given as text. Nothing
/// is proved of it: the contract only gives the outcome its name.
#[verifier::external_body]
pub(crate) fn strip_prefix(path: &str, base: &str) -> (out: Option<String>)
    ensures
        text_view(out) == stripped_prefix(path@, base@),
{
    Path::new(path).strip_prefix(base).ok().map(|rest| rest.to_string_lossy().into_owned())
}

/// Calls `std::path::Path::file_name` on a path given as text. Nothing is
/// proved of it: the contract only gives the outcome its name.
#[verifier::external_body]
pub(crate) fn file_name(path: &str) -> (out: Option<String>)
    ensures
        text_view(out) == file_name_of(path@),
{
    Path::new(path).file_name().map(|name| name.to_string_lossy().into_owned())
}

/// Calls `std::path::Path::with_extension` on a path and an extension given
/// as text. The standard library panics on an extension that holds a
/// separator, so none is admitted. Nothing is proved of the result: the
/// contract only gives it its name.
#[verifier::external_body]
pub(crate) fn with_extension(path: &str, extension: &str) -> (out: String)
    requires
        !holds_separator(extension@),
    ensures
        out@ == with_extension_of(path@, extension@),
{
    Path::new(path).with_extension(extension).to_string_lossy().into_owned()
}

/// The extension in a file's name: see [`extension_in`].
pub fn extension_in_name(name: &str) -> (found: Option<String>)
    ensures
        text_view(found) == extension_in(name@),
{
    let length = name.unicode_len();
    let mut at: usize = length;
    while at > 0
        invariant
            at <= length,
            length == name@.len(),
            forall|k: int| at <= k < length ==> name@[k] != '.',
        decreases at,
    {
        if name.get_char(at - 1) == '.' {
            proof {
                name@.index_of_last_ensures('.');
                assert(name@[at - 1] == '.');
                assert(name@.index_of_last('.') == Some(at - 1));
            }
            if at == 1 {
                return None;
            }
            let rest = name.substring_char(at, length);
            assert(rest@ =~= name@.skip(at as int));
            return Some(String::from_str(rest));
        }
        at -= 1;
    }
    proof {
        name@.index_of_last_ensures('.');
    }
    None
}

/// Whether two byte strings hold the same bytes.
pub fn bytes_equal(a: &[u8], b: &[u8]) -> (same: bool)
    ensures
        same <==> a@ == b@,
{
    if a.len() != b.len() {
        return false;
    }
    let mut i: usize = 0;
    while i < a.len()
        invariant
            a@.len() == b@.len(),
            i <= a@.len(),
            forall|k: int| 0 <= k < i ==> a@[k] == b@[k],
        decreases a@.len() - i,
    {
        if a[i] != b[i] {
            return false;
        }
        i += 1;
    }
    assert(a@ =~= b@);
    true
}

impl ImagePath {
    /// The path whose bytes are the encoding of `text`.
    pub fn from_text(text: &str) -> (path: ImagePath)
        ensures
            path@.text == text@,
            path@.raw == encode_utf8(text@),
            path@.is_exact(),
    {
        ImagePath { raw: text.as_bytes_vec(), text: String::from_str(text) }
    }

    /// Whether the text is the path itself.
    pub fn is_exact(&self) -> (exact: bool)
        ensures
            exact == self@.is_exact(),
    {
        bytes_equal(self.raw.as_slice(), self.text.as_str().as_bytes())
    }

    /// The extension of the file that the path names, as its text shows
    /// it.
    pub fn extension(&self) -> (found: Option<String>)
        ensures
            text_view(found) == extension_of(self@.text),
    {
        match file_name(self.text.as_str()) {
            Some(name) => extension_in_name(name.as_str()),
            None => None,
        }
    }
}

impl Clone for ImagePath {
    fn clone(&self) -> (copy: ImagePath)
        ensures
            copy@ == self@,
    {
        let copy = ImagePath { raw: self.raw.clone(), text: self.text.clone() };
        assert(copy.raw@ =~= self.raw@);
        copy
    }
}

} // verus!

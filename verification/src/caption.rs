//! Captions: the text shown with an image, made from the image's path by
//! taking off the file's extension and then a fixed chain of deletions.

use crate::path::{
    file_name, file_name_of, holds_separator, strip_prefix, stripped_prefix, text_view,
    with_extension, with_extension_of, ImagePath, PathView,
};
use vstd::prelude::*;

verus! {

/// A leading day, as in `2024-12-25 `.
pub const LEADING_DAY: &'static str = r"^\d{4}-\d{2}-\d{2}[ -]";

/// A leading month, as in `2024-12 `.
pub const LEADING_MONTH: &'static str = r"^\d{4}-\d{2}[ -]";

/// A compact timestamp and its dash, as in `20241224T100546-`.
pub const TIMESTAMP: &'static str = r"\d{8}T\d{6}[-]";

/// A trailing sequence number, as in `-019`.
pub const SEQUENCE: &'static str = r"-\d{3}$";

/// A name that a camera gave, as in `IMG_9969`.
pub const CAMERA_IMG: &'static str = r"IMG_\d{4}";

/// A name that a camera gave, as in `DCS_0042`.
pub const CAMERA_DCS: &'static str = r"DCS_\d{4}";

/// What is left at either end that is neither a letter nor a digit.
pub const EDGES: &'static str = r"^[^a-zA-Z0-9]+|[^a-zA-Z0-9]+$";

/// The patterns whose matches are deleted, in the order in which they are
/// applied.
pub open spec fn deletions() -> Seq<Seq<char>> {
    seq![
        LEADING_DAY@,
        LEADING_MONTH@,
        TIMESTAMP@,
        SEQUENCE@,
        CAMERA_IMG@,
        CAMERA_DCS@,
        EDGES@,
    ]
}

/// What `regex::Regex::replace_all` makes of `text` for the expression
/// compiled from `pattern` and the replacement `with`; `None` where
/// `regex::Regex::new` refuses the pattern.
pub uninterp spec fn replaced(pattern: Seq<char>, text: Seq<char>, with: Seq<char>) -> Option<
    Seq<char>,
>;

/// `text` after each of `patterns` in turn had its matches deleted from what
/// the pattern before it left; `None` where one of them is no pattern.
pub open spec fn deleted(patterns: Seq<Seq<char>>, text: Seq<char>) -> Option<Seq<char>>
    decreases patterns.len(),
{
    if patterns.len() == 0 {
        Some(text)
    } else {
        match replaced(patterns[0], text, Seq::empty()) {
            Some(rest) => deleted(patterns.drop_first(), rest),
            None => None,
        }
    }
}

/// A path without the extension of the file that it names. Only the last
/// component loses anything: a dot in the name of a directory stays.
pub open spec fn stem_of(part: Seq<char>) -> Seq<char> {
    with_extension_of(part, Seq::empty())
}

/// What is left of a path for its caption: the path without the file's
/// extension, and then without what [`deletions`] delete.
pub open spec fn cleaned(part: Seq<char>) -> Option<Seq<char>> {
    deleted(deletions(), stem_of(part))
}

/// The part of a path that its caption is made from: the path below `root`,
/// or its last component where no root is given.
pub open spec fn captioned_part(path: Seq<char>, root: Option<Seq<char>>) -> Option<Seq<char>> {
    match root {
        Some(base) => stripped_prefix(path, base),
        None => file_name_of(path),
    }
}

/// The caption of a path. There is none where the path is no text, where it
/// does not lie below the root, or where it has no last component to go by.
pub open spec fn caption_of(path: PathView, root: Option<Seq<char>>) -> Option<Seq<char>> {
    if !path.is_exact() {
        None
    } else {
        match captioned_part(path.text, root) {
            Some(part) => cleaned(part),
            None => None,
        }
    }
}

/// Whether none of `patterns` has a match in `text`, so far as deleting
/// its matches shows: each deletion leaves the text as it is.
pub open spec fn settled_under(patterns: Seq<Seq<char>>, text: Seq<char>) -> bool {
    forall|k: int|
        0 <= k < patterns.len() ==> replaced(#[trigger] patterns[k], text, Seq::empty()) == Some(
            text,
        )
}

/// Whether nothing is left to take from `text`: it has no extension to
/// lose, and no deletion of [`deletions`] changes it.
pub open spec fn settled(text: Seq<char>) -> bool {
    stem_of(text) == text && settled_under(deletions(), text)
}

/// A text that none of the patterns changes comes out of their deletions as
/// it went in.
pub proof fn lemma_settled_stays(patterns: Seq<Seq<char>>, text: Seq<char>)
    requires
        settled_under(patterns, text),
    ensures
        deleted(patterns, text) == Some(text),
    decreases patterns.len(),
{
    if patterns.len() > 0 {
        assert(replaced(patterns[0], text, Seq::empty()) == Some(text));
        assert forall|k: int| 0 <= k < patterns.drop_first().len() implies replaced(
            #[trigger] patterns.drop_first()[k],
            text,
            Seq::empty(),
        ) == Some(text) by {
            assert(patterns.drop_first()[k] == patterns[k + 1]);
        }
        lemma_settled_stays(patterns.drop_first(), text);
    }
}

/// Cleaning a second time changes nothing, wherever the first time left
/// nothing behind that can be taken. (It can: where a date follows a date,
/// the first time deletes the first date only; and a caption with a dot in
/// it reads as a name with an extension.)
pub proof fn lemma_clean_again(text: Seq<char>, once: Seq<char>)
    requires
        cleaned(text) == Some(once),
        settled(once),
    ensures
        cleaned(once) == cleaned(text),
{
    lemma_settled_stays(deletions(), once);
}

/// Compiles `pattern` with `regex::Regex::new` and calls
/// `regex::Regex::replace_all` on `text`. Nothing is proved of either: the
/// contract only gives the outcome its name.
#[verifier::external_body]
fn replace_all(pattern: &str, text: &str, with: &str) -> (out: Option<String>)
    ensures
        text_view(out) == replaced(pattern@, text@, with@),
{
    match regex::Regex::new(pattern) {
        Ok(expression) => Some(expression.replace_all(text, with).into_owned()),
        Err(_) => None,
    }
}

/// The patterns of [`deletions`], in their order.
fn patterns() -> (all: [&'static str; 7])
    ensures
        all@.len() == deletions().len(),
        forall|k: int| 0 <= k < 7 ==> (#[trigger] all@[k])@ == deletions()[k],
{
    [LEADING_DAY, LEADING_MONTH, TIMESTAMP, SEQUENCE, CAMERA_IMG, CAMERA_DCS, EDGES]
}

/// A path without the extension of the file that it names: see
/// [`stem_of`].
pub fn stem(part: &str) -> (left: String)
    ensures
        left@ == stem_of(part@),
{
    proof {
        reveal_strlit("");
        assert(""@ =~= Seq::<char>::empty());
        assert(!holds_separator(""@));
    }
    with_extension(part, "")
}

/// Whether nothing is left to take from `text`: see [`settled`].
pub fn is_settled(text: &str) -> (stays: bool)
    ensures
        stays == settled(text@),
{
    let patterns = patterns();
    let whole: String = text.to_owned();
    if stem(text) != whole {
        return false;
    }
    let mut done: usize = 0;
    proof {
        reveal_strlit("");
        assert(""@ =~= Seq::<char>::empty());
    }
    while done < 7
        invariant
            done <= 7,
            patterns@.len() == 7,
            deletions().len() == 7,
            forall|k: int| 0 <= k < 7 ==> (#[trigger] patterns@[k])@ == deletions()[k],
            ""@ == Seq::<char>::empty(),
            whole@ == text@,
            stem_of(text@) == text@,
            forall|k: int|
                0 <= k < done ==> replaced(#[trigger] deletions()[k], text@, Seq::empty())
                    == Some(text@),
        decreases 7 - done,
    {
        let stays = match replace_all(patterns[done], text, "") {
            Some(left) => left == whole,
            None => false,
        };
        if !stays {
            assert(replaced(deletions()[done as int], text@, Seq::empty()) != Some(text@));
            return false;
        }
        done += 1;
    }
    true
}

/// What is left of a path for its caption: the path without the file's
/// extension, and then without the matches of each pattern of
/// [`deletions`] in turn. A text from which nothing is left to take comes
/// back as it is.
pub fn clean(part: &str) -> (out: Option<String>)
    ensures
        text_view(out) == cleaned(part@),
        settled(part@) ==> text_view(out) == Some(part@),
{
    proof {
        if settled(part@) {
            lemma_settled_stays(deletions(), part@);
        }
    }
    let patterns = patterns();
    let mut current: String = stem(part);
    let ghost start = current@;
    let mut done: usize = 0;
    proof {
        reveal_strlit("");
        assert(""@ =~= Seq::<char>::empty());
        assert(deletions().skip(0) =~= deletions());
    }
    while done < 7
        invariant
            done <= 7,
            patterns@.len() == 7,
            forall|k: int| 0 <= k < 7 ==> (#[trigger] patterns@[k])@ == deletions()[k],
            ""@ == Seq::<char>::empty(),
            start == stem_of(part@),
            deleted(deletions(), start) == deleted(deletions().skip(done as int), current@),
            settled(part@) ==> deleted(deletions(), start) == Some(part@),
        decreases 7 - done,
    {
        proof {
            let rest = deletions().skip(done as int);
            assert(rest.len() > 0);
            assert(rest[0] == deletions()[done as int]);
            assert(rest.drop_first() =~= deletions().skip(done as int + 1));
        }
        match replace_all(patterns[done], current.as_str(), "") {
            Some(shorter) => {
                current = shorter;
            },
            None => {
                return None;
            },
        }
        done += 1;
    }
    assert(deletions().skip(7) =~= Seq::<Seq<char>>::empty());
    Some(current)
}

/// The caption of the image at `path`: the path below `root` (or the file's
/// name alone where no root is given) without the file's extension, dates,
/// timestamps, sequence numbers, camera names and what is left of
/// separators at either end. The directories below the root stay, dots and
/// all.
pub fn derive_caption(path: &ImagePath, root: Option<&str>) -> (caption: Option<String>)
    ensures
        text_view(caption) == caption_of(path@, root_text(root)),
{
    if !path.is_exact() {
        return None;
    }
    let part = match root {
        Some(base) => strip_prefix(path.text.as_str(), base),
        None => file_name(path.text.as_str()),
    };
    match part {
        Some(part) => clean(part.as_str()),
        None => None,
    }
}

/// The root as a contract sees it.
pub open spec fn root_text(root: Option<&str>) -> Option<Seq<char>> {
    match root {
        Some(base) => Some(base@),
        None => None,
    }
}

} // verus!

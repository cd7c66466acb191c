//! The catalog: the images found below a directory, in the order in which
//! the walk through the directory met them.

use crate::error::SlideshowError;
use crate::path::{extension_of, ImagePath, PathView};
use crate::random::RandomSource;
use vstd::arithmetic::div_mod::{
    lemma_fundamental_div_mod, lemma_fundamental_div_mod_converse,
    lemma_mod_add_multiples_vanish,
};
use vstd::prelude::*;
use vstd::string::*;

verus! {

/// The extension of the files that the catalog takes, in small letters.
pub const IMAGE_EXTENSION: &'static str = "jpg";

/// The small letter for a capital letter of the ASCII alphabet; any other
/// character is left as it is.
pub open spec fn ascii_lowercase(c: char) -> char {
    if 'A' <= c && c <= 'Z' {
        ((c as u8 + 32) as u8) as char
    } else {
        c
    }
}

/// A text with each capital letter of the ASCII alphabet made small.
pub open spec fn lowercased(text: Seq<char>) -> Seq<char> {
    text.map_values(|c: char| ascii_lowercase(c))
}

/// Whether an extension is that of an image, whatever the case of its
/// letters.
pub open spec fn is_image_extension(found: Seq<char>) -> bool {
    lowercased(found) == IMAGE_EXTENSION@
}

/// Whether the file that `path` names has the extension of an image.
pub open spec fn has_image_extension(path: Seq<char>) -> bool {
    match extension_of(path) {
        Some(found) => is_image_extension(found),
        None => false,
    }
}

/// The small letter for a capital letter of the ASCII alphabet.
pub fn to_ascii_lowercase(c: char) -> (small: char)
    ensures
        small == ascii_lowercase(c),
{
    if 'A' <= c && c <= 'Z' {
        ((c as u8) + 32) as char
    } else {
        c
    }
}

/// Whether an extension is that of an image, whatever the case of its
/// letters.
pub fn is_supported_extension(found: &str) -> (supported: bool)
    ensures
        supported == is_image_extension(found@),
{
    let wanted = IMAGE_EXTENSION;
    let length = wanted.unicode_len();
    let ghost small = lowercased(found@);
    assert(small.len() == found@.len());
    if found.unicode_len() != length {
        return false;
    }
    let mut at: usize = 0;
    while at < length
        invariant
            at <= length,
            wanted@ == IMAGE_EXTENSION@,
            length == wanted@.len(),
            length == found@.len(),
            small == lowercased(found@),
            forall|k: int| 0 <= k < at ==> small[k] == wanted@[k],
        decreases length - at,
    {
        if to_ascii_lowercase(found.get_char(at)) != wanted.get_char(at) {
            assert(small[at as int] != wanted@[at as int]);
            return false;
        }
        at += 1;
    }
    assert(small =~= wanted@);
    true
}

/// Whether the file that `path` names has the extension of an image.
pub fn is_image_path(path: &ImagePath) -> (supported: bool)
    ensures
        supported == has_image_extension(path@.text),
{
    match path.extension() {
        Some(found) => is_supported_extension(found.as_str()),
        None => false,
    }
}

/// One step of a walk through a directory.
#[derive(Debug)]
pub enum Walked {
    /// The walk met an entry; `is_file` says whether it is a file and not a
    /// directory or anything else.
    Found { path: ImagePath, is_file: bool },
    /// The walk could not read something `depth` levels below the directory
    /// it started from; at depth 0 that directory itself.
    Failed { depth: usize },
}

/// The mathematical value of a [`Walked`].
pub enum WalkedView {
    Found { path: PathView, is_file: bool },
    Failed { depth: usize },
}

impl View for Walked {
    type V = WalkedView;

    open spec fn view(&self) -> WalkedView {
        match *self {
            Walked::Found { path, is_file } => WalkedView::Found { path: path@, is_file },
            Walked::Failed { depth } => WalkedView::Failed { depth },
        }
    }
}

/// The steps of a walk as mathematical values.
pub open spec fn walk_view(walk: Seq<Walked>) -> Seq<WalkedView> {
    walk.map_values(|step: Walked| step@)
}

/// The image that a step of a walk adds to the catalog: the path of a file
/// with the extension of an image.
pub open spec fn image_in(step: WalkedView) -> Option<PathView> {
    match step {
        WalkedView::Found { path, is_file } => if is_file && has_image_extension(path.text) {
            Some(path)
        } else {
            None
        },
        WalkedView::Failed { depth } => None,
    }
}

/// The images that a walk found, in the order in which it met them.
pub open spec fn images_in(walk: Seq<WalkedView>) -> Seq<PathView> {
    walk.filter_map(|step: WalkedView| image_in(step))
}

/// Whether a walk could not read the directory it started from.
pub open spec fn root_failed(walk: Seq<WalkedView>) -> bool {
    exists|i: int| 0 <= i < walk.len() && walk[i] == (WalkedView::Failed { depth: 0 })
}

/// The entry that an index stands for: indices wrap around the catalog, so
/// that a counter that only grows keeps going round it. An empty catalog
/// has no entry for any index.
pub open spec fn lookup(entries: Seq<PathView>, index: int) -> Result<PathView, SlideshowError> {
    if entries.len() == 0 {
        Err(SlideshowError::EmptyCatalog)
    } else {
        Ok(entries[index % (entries.len() as int)])
    }
}

/// What a lookup gave, as a mathematical value.
pub open spec fn found_view(found: Result<ImagePath, SlideshowError>) -> Result<
    PathView,
    SlideshowError,
> {
    match found {
        Ok(path) => Ok(path@),
        Err(error) => Err(error),
    }
}

/// An index and the index one round of the catalog further on stand for the
/// same entry.
pub proof fn lemma_lookup_wraps(entries: Seq<PathView>, index: int)
    ensures
        lookup(entries, index) == lookup(entries, index + entries.len()),
{
    if entries.len() > 0 {
        lemma_mod_add_multiples_vanish(index, entries.len() as int);
    }
}

/// A walk that met no file leaves nothing in the catalog, and a catalog
/// with nothing in it has no entry for any index.
pub proof fn lemma_walk_without_files(walk: Seq<WalkedView>, index: int)
    requires
        forall|i: int|
            0 <= i < walk.len() ==> !(#[trigger] walk[i] matches WalkedView::Found {
                is_file: true,
                ..
            }),
    ensures
        images_in(walk) == Seq::<PathView>::empty(),
        lookup(images_in(walk), index) == Err::<PathView, SlideshowError>(
            SlideshowError::EmptyCatalog,
        ),
    decreases walk.len(),
{
    if walk.len() > 0 {
        lemma_walk_without_files(walk.drop_last(), index);
        assert(image_in(walk.last()) is None);
    }
}

/// Every image that a walk found is a file with the extension of an image,
/// and is one of the entries that the walk met.
pub proof fn lemma_images_qualify(walk: Seq<WalkedView>, place: int)
    requires
        0 <= place < images_in(walk).len(),
    ensures
        has_image_extension(images_in(walk)[place].text),
        walk.contains(WalkedView::Found { path: images_in(walk)[place], is_file: true }),
    decreases walk.len(),
{
    if walk.len() > 0 {
        let before = images_in(walk.drop_last());
        if place < before.len() {
            lemma_images_qualify(walk.drop_last(), place);
            let step = WalkedView::Found { path: before[place], is_file: true };
            let i = choose|i: int| 0 <= i < walk.drop_last().len() && walk.drop_last()[i] == step;
            assert(walk[i] == step);
        } else {
            assert(image_in(walk.last()) == Some(images_in(walk)[place]));
            assert(walk[walk.len() - 1] == walk.last());
        }
    }
}

/// The place in a catalog of `length` entries that `index` stands for.
fn wrap_index(index: i32, length: usize) -> (slot: usize)
    requires
        length > 0,
    ensures
        slot == (index as int) % (length as int),
{
    if index >= 0 {
        (index as usize) % length
    } else {
        let back: u64 = (-(index as i64)) as u64;
        let over: u64 = back % (length as u64);
        proof {
            let d = length as int;
            let q = (back as int) / d;
            lemma_fundamental_div_mod(back as int, d);
            assert(back as int == d * q + over as int);
            if over == 0 {
                assert(index as int == (-q) * d + 0) by (nonlinear_arith)
                    requires
                        index as int == -(back as int),
                        back as int == d * q + 0,
                ;
                lemma_fundamental_div_mod_converse(index as int, d, -q, 0);
            } else {
                assert(index as int == (-q - 1) * d + (d - over as int)) by (nonlinear_arith)
                    requires
                        index as int == -(back as int),
                        back as int == d * q + over as int,
                ;
                lemma_fundamental_div_mod_converse(index as int, d, -q - 1, d - over as int);
            }
        }
        if over == 0 {
            0
        } else {
            length - (over as usize)
        }
    }
}

/// The images found below a directory. Every entry names a file with the
/// extension of an image.
pub struct Catalog {
    entries: Vec<ImagePath>,
}

impl View for Catalog {
    type V = Seq<PathView>;

    closed spec fn view(&self) -> Seq<PathView> {
        self.entries@.map_values(|path: ImagePath| path@)
    }
}

impl Catalog {
    #[verifier::type_invariant]
    spec fn only_images(&self) -> bool {
        forall|i: int|
            0 <= i < self.entries@.len() ==> has_image_extension(
                (#[trigger] self.entries@[i])@.text,
            )
    }

    /// A catalog without entries.
    pub fn new() -> (catalog: Catalog)
        ensures
            catalog@ == Seq::<PathView>::empty(),
    {
        let catalog = Catalog { entries: Vec::new() };
        assert(catalog@ =~= Seq::<PathView>::empty());
        catalog
    }

    /// The number of entries.
    pub fn len(&self) -> (length: usize)
        ensures
            length == self@.len(),
    {
        self.entries.len()
    }

    /// The entry in place `slot`, for a place that the catalog has.
    pub fn entry(&self, slot: usize) -> (found: Option<&ImagePath>)
        ensures
            slot < self@.len() <==> found is Some,
            found matches Some(path) ==> path@ == self@[slot as int] && has_image_extension(
                path@.text,
            ),
    {
        proof {
            use_type_invariant(self);
        }
        if slot < self.entries.len() {
            Some(&self.entries[slot])
        } else {
            None
        }
    }

    /// Puts in place of the entries the images that a walk found. Where the
    /// walk could not read the directory it started from, the catalog stays
    /// as it is. What else the walk could not read is left out.
    pub fn rebuild(&mut self, walk: &Vec<Walked>) -> (done: Result<(), SlideshowError>)
        ensures
            root_failed(walk_view(walk@)) ==> done == Err::<(), SlideshowError>(
                SlideshowError::RootUnreadable,
            ) && final(self)@ == old(self)@,
            !root_failed(walk_view(walk@)) ==> done is Ok && final(self)@ == images_in(
                walk_view(walk@),
            ),
    {
        let ghost steps = walk_view(walk@);
        let mut found: Vec<ImagePath> = Vec::new();
        let mut at: usize = 0;
        assert(steps.take(0) =~= Seq::<WalkedView>::empty());
        while at < walk.len()
            invariant
                at <= walk@.len(),
                steps == walk_view(walk@),
                steps.len() == walk@.len(),
                found@.map_values(|path: ImagePath| path@) == images_in(steps.take(at as int)),
                forall|i: int|
                    0 <= i < found@.len() ==> has_image_extension((#[trigger] found@[i])@.text),
                forall|i: int| 0 <= i < at ==> steps[i] != (WalkedView::Failed { depth: 0 }),
            decreases walk@.len() - at,
        {
            proof {
                steps.lemma_filter_map_take_succ(|step: WalkedView| image_in(step), at as int);
                assert(steps[at as int] == walk@[at as int]@);
            }
            let ghost before = found@.map_values(|path: ImagePath| path@);
            match &walk[at] {
                Walked::Found { path, is_file } => {
                    if *is_file && is_image_path(path) {
                        let copy = path.clone();
                        found.push(copy);
                        assert(found@.map_values(|path: ImagePath| path@) =~= before + seq![
                            copy@,
                        ]);
                    }
                },
                Walked::Failed { depth } => {
                    if *depth == 0 {
                        assert(root_failed(steps));
                        return Err(SlideshowError::RootUnreadable);
                    }
                },
            }
            at += 1;
        }
        assert(steps.take(at as int) =~= steps);
        self.entries = found;
        Ok(())
    }

    /// The entry that `index` stands for: see [`lookup`].
    pub fn get(&self, index: i32) -> (found: Result<ImagePath, SlideshowError>)
        ensures
            found_view(found) == lookup(self@, index as int),
            found matches Ok(path) ==> has_image_extension(path@.text),
    {
        let length = self.entries.len();
        if length == 0 {
            Err(SlideshowError::EmptyCatalog)
        } else {
            proof {
                use_type_invariant(self);
            }
            Ok(self.entries[wrap_index(index, length)].clone())
        }
    }

    /// The entry in the place that was drawn: `draw` is any number, and
    /// stands for a place as an index does.
    pub fn pick(&self, draw: usize) -> (found: Result<ImagePath, SlideshowError>)
        ensures
            found_view(found) == lookup(self@, draw as int),
            found matches Ok(path) ==> has_image_extension(path@.text),
    {
        let length = self.entries.len();
        if length == 0 {
            Err(SlideshowError::EmptyCatalog)
        } else {
            proof {
                use_type_invariant(self);
            }
            Ok(self.entries[draw % length].clone())
        }
    }

    /// One entry, in a place that `source` draws, which costs the source
    /// one draw. Which place that is, is not said. From an empty catalog
    /// nothing is drawn.
    pub fn pick_random(&self, source: &mut RandomSource) -> (found: Result<
        ImagePath,
        SlideshowError,
    >)
        ensures
            self@.len() == 0 ==> found == Err::<ImagePath, SlideshowError>(
                SlideshowError::EmptyCatalog,
            ) && *final(source) == *old(source),
            self@.len() > 0 ==> exists|place: int|
                0 <= place < self@.len() && found_view(found) == lookup(self@, place),
            self@.len() > 0 ==> final(source).draws() == old(source).draws() + 1,
            found matches Ok(path) ==> has_image_extension(path@.text),
            final(source).fixed_seed() == old(source).fixed_seed(),
    {
        match source.draw_below(self.entries.len()) {
            Some(draw) => {
                let found = self.pick(draw);
                assert(found_view(found) == lookup(self@, draw as int));
                found
            },
            None => Err(SlideshowError::EmptyCatalog),
        }
    }
}

} // verus!

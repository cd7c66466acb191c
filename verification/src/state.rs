//! The state of a slideshow: its catalog, its counter, its settings and the
//! source of its random draws.

use crate::caption::{caption_of, derive_caption, root_text};
use crate::catalog::{
    found_view, has_image_extension, images_in, lemma_lookup_wraps, lemma_walk_without_files,
    lookup, root_failed, walk_view, Catalog, Walked, WalkedView,
};
use crate::counter::{after_ticks, Counter};
use crate::error::SlideshowError;
use crate::metadata::{made_view, metadata_after_read, read_view, ImageMetadata, MetadataView};
use crate::path::{text_view, ImagePath, PathView};
use crate::random::{RandomSource, FALLBACK_SEED};
use crate::settings::{default_settings, Settings, SettingsView};
use vstd::prelude::*;
use vstd::string::*;

verus! {

/// The seed of the draws that can be repeated.
pub const FIXED_SEED: u64 = 0;

/// The mathematical value of an [`AppState`].
pub struct StateView {
    /// The catalog.
    pub images: Seq<PathView>,
    /// How often the slideshow has moved on.
    pub counter: int,
    /// The seed of the random draws, where one was chosen.
    pub seed: Option<u64>,
    /// How many random draws were made since the draws were started.
    pub draws: nat,
    /// What the user has set.
    pub settings: SettingsView,
    /// The directory that the catalog was made from.
    pub base: Seq<char>,
}

/// What is shown with the image that `index` stands for, once its file was
/// read.
pub open spec fn metadata_at(state: StateView, index: int, read: Option<Seq<u8>>) -> Result<
    MetadataView,
    SlideshowError,
> {
    match lookup(state.images, index) {
        Ok(path) => metadata_after_read(path, Some(state.base), read),
        Err(error) => Err(error),
    }
}

/// What is shown with an image is the same one round of the catalog further
/// on.
pub proof fn lemma_metadata_wraps(state: StateView, index: int, read: Option<Seq<u8>>)
    ensures
        metadata_at(state, index, read) == metadata_at(state, index + state.images.len(), read),
{
    lemma_lookup_wraps(state.images, index);
}

/// Once the catalog was made from a walk that met no file, there is neither
/// an image nor anything to show for any index, whatever was read.
pub proof fn lemma_nothing_after_empty_walk(
    state: StateView,
    walk: Seq<WalkedView>,
    index: int,
    read: Option<Seq<u8>>,
)
    requires
        state.images == images_in(walk),
        forall|i: int|
            0 <= i < walk.len() ==> !(#[trigger] walk[i] matches WalkedView::Found {
                is_file: true,
                ..
            }),
    ensures
        lookup(state.images, index) == Err::<PathView, SlideshowError>(
            SlideshowError::EmptyCatalog,
        ),
        metadata_at(state, index, read) == Err::<MetadataView, SlideshowError>(
            SlideshowError::EmptyCatalog,
        ),
{
    lemma_walk_without_files(walk, index);
}

/// The state of a slideshow.
pub struct AppState {
    all_images: Catalog,
    counter: Counter,
    rng: RandomSource,
    pub settings: Settings,
    pictures_base: String,
}

impl View for AppState {
    type V = StateView;

    closed spec fn view(&self) -> StateView {
        StateView {
            images: self.all_images@,
            counter: self.counter@,
            seed: self.rng.fixed_seed(),
            draws: self.rng.draws(),
            settings: self.settings@,
            base: self.pictures_base@,
        }
    }
}

impl AppState {
    /// The state that a slideshow starts in: nothing in the catalog, the
    /// counter at zero, the settings as they are by default, and random
    /// draws that the system seeded (or, where it has no entropy to give,
    /// draws from the seed that stands in for it).
    pub fn new() -> (state: AppState)
        ensures
            state@.images == Seq::<PathView>::empty(),
            state@.counter == 0,
            state@.settings == default_settings(),
            state@.base == Seq::<char>::empty(),
            state@.seed is None || state@.seed == Some(FALLBACK_SEED),
            state@.draws == 0,
    {
        AppState {
            all_images: Catalog::new(),
            counter: Counter::new(),
            rng: RandomSource::from_system(),
            settings: Settings::default(),
            pictures_base: String::new(),
        }
    }

    /// Starts the random draws again from [`FIXED_SEED`], so that they can
    /// be repeated: no draw has been made from the new start.
    pub fn set_seed(&mut self)
        ensures
            final(self)@ == (StateView { seed: Some(FIXED_SEED), draws: 0, ..old(self)@ }),
    {
        self.rng = RandomSource::seeded(FIXED_SEED);
    }

    /// Takes `pictures_base` as the directory of the images and the images
    /// that a walk through it found as the catalog. Where the walk could
    /// not read the directory itself, nothing changes.
    pub fn set_path(&mut self, pictures_base: &str, walk: &Vec<Walked>) -> (done: Result<
        (),
        SlideshowError,
    >)
        ensures
            root_failed(walk_view(walk@)) ==> done == Err::<(), SlideshowError>(
                SlideshowError::RootUnreadable,
            ) && final(self)@ == old(self)@,
            !root_failed(walk_view(walk@)) ==> done is Ok && final(self)@ == (StateView {
                images: images_in(walk_view(walk@)),
                base: pictures_base@,
                ..old(self)@
            }),
    {
        match self.all_images.rebuild(walk) {
            Ok(()) => {
                self.pictures_base = String::from_str(pictures_base);
                Ok(())
            },
            Err(error) => Err(error),
        }
    }

    /// One image of the catalog, drawn at random. Which one it is, is not
    /// said. The draw is counted; nothing else in the state changes, and
    /// with an empty catalog nothing is drawn.
    pub fn get_current_image(&mut self) -> (found: Result<ImagePath, SlideshowError>)
        ensures
            old(self)@.images.len() == 0 ==> found == Err::<ImagePath, SlideshowError>(
                SlideshowError::EmptyCatalog,
            ),
            old(self)@.images.len() > 0 ==> exists|place: int|
                0 <= place < old(self)@.images.len() && found_view(found) == lookup(
                    old(self)@.images,
                    place,
                ),
            found matches Ok(path) ==> has_image_extension(path@.text),
            old(self)@.images.len() == 0 ==> final(self)@ == old(self)@,
            old(self)@.images.len() > 0 ==> final(self)@ == (StateView {
                draws: old(self)@.draws + 1,
                ..old(self)@
            }),
    {
        self.all_images.pick_random(&mut self.rng)
    }

    /// The image that `num` stands for: see [`lookup`].
    pub fn get_image(&self, num: i32) -> (found: Result<ImagePath, SlideshowError>)
        ensures
            found_view(found) == lookup(self@.images, num as int),
            found matches Ok(path) ==> has_image_extension(path@.text),
    {
        self.all_images.get(num)
    }

    /// What is shown with the image that `num` stands for. `read` holds the
    /// contents of that image's file, or nothing where the file could not
    /// be read. An empty catalog is an error whatever was read.
    pub fn get_image_metadata(&self, num: i32, read: Option<&[u8]>) -> (made: Result<
        ImageMetadata,
        SlideshowError,
    >)
        ensures
            made_view(made) == metadata_at(self@, num as int, read_view(read)),
    {
        match self.all_images.get(num) {
            Ok(path) => ImageMetadata::after_read(&path, Some(self.pictures_base.as_str()), read),
            Err(error) => Err(error),
        }
    }

    /// Moves the slideshow on by one.
    pub fn increment(&mut self)
        ensures
            final(self)@ == (StateView { counter: after_ticks(old(self)@.counter, 1), ..old(self)@ }),
    {
        self.counter.increment();
    }

    /// How often the slideshow has moved on.
    pub fn get(&self) -> (counter: i32)
        ensures
            counter == self@.counter,
            counter >= 0,
    {
        self.counter.get()
    }

    /// The caption of the image at `filename`: see [`caption_of`].
    pub fn filename_to_description(filename: &ImagePath, pictures_base: Option<&str>) -> (caption:
        Option<String>)
        ensures
            text_view(caption) == caption_of(filename@, root_text(pictures_base)),
    {
        derive_caption(filename, pictures_base)
    }

    /// A copy of the settings.
    pub fn read_settings(&self) -> (current: Settings)
        ensures
            current@ == self@.settings,
    {
        self.settings.clone()
    }

    /// Puts `new` in place of the settings.
    pub fn replace_settings(&mut self, new: Settings)
        ensures
            final(self)@ == (StateView { settings: new@, ..old(self)@ }),
    {
        self.settings = new;
    }

    /// The seconds to wait until the slideshow moves on.
    pub fn tick_period(&self) -> (seconds: u64)
        ensures
            seconds == self@.settings.interval,
            seconds > 0,
    {
        self.settings.tick_period()
    }

    /// The directory that the catalog was made from.
    pub fn pictures_base(&self) -> (base: &String)
        ensures
            base@ == self@.base,
    {
        &self.pictures_base
    }

    /// The number of images in the catalog.
    pub fn image_count(&self) -> (count: usize)
        ensures
            count == self@.images.len(),
    {
        self.all_images.len()
    }
}

} // verus!

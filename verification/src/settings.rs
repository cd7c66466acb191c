//! What the user can set.

use vstd::prelude::*;
use vstd::string::*;

verus! {

/// The name that the slideshow has until the user gives it another.
pub const DEFAULT_NAME: &'static str = "slideshow";

/// The seconds for which an image is shown until the user sets another
/// interval.
pub const DEFAULT_INTERVAL: i32 = 300;

/// The mathematical value of a [`Settings`].
pub struct SettingsView {
    /// The name of the slideshow.
    pub slideshow: Seq<char>,
    /// The seconds for which an image is shown.
    pub interval: int,
}

/// The settings of a slideshow: its name, and for how many seconds each
/// image is shown. The interval is always positive.
#[derive(Debug)]
pub struct Settings {
    slideshow: String,
    interval: i32,
}

impl View for Settings {
    type V = SettingsView;

    closed spec fn view(&self) -> SettingsView {
        SettingsView { slideshow: self.slideshow@, interval: self.interval as int }
    }
}

/// The settings that a slideshow starts with.
pub open spec fn default_settings() -> SettingsView {
    SettingsView { slideshow: DEFAULT_NAME@, interval: DEFAULT_INTERVAL as int }
}

impl Settings {
    #[verifier::type_invariant]
    spec fn positive_interval(&self) -> bool {
        self.interval > 0
    }

    /// Settings with the given name and interval. An interval that is not
    /// positive is refused.
    pub fn new(slideshow: String, interval: i32) -> (made: Option<Settings>)
        ensures
            interval > 0 <==> made is Some,
            made matches Some(settings) ==> settings@ == (SettingsView {
                slideshow: slideshow@,
                interval: interval as int,
            }),
    {
        if interval > 0 {
            Some(Settings { slideshow, interval })
        } else {
            None
        }
    }

    /// The name of the slideshow.
    pub fn slideshow(&self) -> (name: &String)
        ensures
            name@ == self@.slideshow,
    {
        &self.slideshow
    }

    /// The seconds for which an image is shown.
    pub fn interval(&self) -> (seconds: i32)
        ensures
            seconds == self@.interval,
            seconds > 0,
    {
        proof {
            use_type_invariant(self);
        }
        self.interval
    }

    /// The seconds to wait from one image to the next.
    pub fn tick_period(&self) -> (seconds: u64)
        ensures
            seconds == self@.interval,
            seconds > 0,
    {
        proof {
            use_type_invariant(self);
        }
        self.interval as u64
    }
}

impl Clone for Settings {
    fn clone(&self) -> (copy: Settings)
        ensures
            copy@ == self@,
    {
        proof {
            use_type_invariant(self);
        }
        Settings { slideshow: self.slideshow.clone(), interval: self.interval }
    }
}

impl Default for Settings {
    fn default() -> (made: Settings)
        ensures
            made@ == default_settings(),
    {
        Settings { slideshow: String::from_str(DEFAULT_NAME), interval: DEFAULT_INTERVAL }
    }
}

} // verus!

//! A slideshow of the images below a directory: a catalog of the images, a
//! counter that moves the slideshow on, and for each image the day it was
//! taken and a caption made from its path.
//!
//! The library does no input or output. Whoever uses it walks the
//! directory and reads the files, and hands over what was found; each
//! function says in its contract what it makes of that.
//!
//! - [`path`]: the path of a file as plain values.
//! - [`catalog`]: the images that a walk through a directory found.
//! - [`caption`]: the caption of an image, from its path.
//! - [`capture`]: the day an image was taken, from its file.
//! - [`metadata`]: the two together.
//! - [`counter`], [`settings`], [`random`]: the other parts of the state.
//! - [`state`]: the whole state of a slideshow.
//! - [`service`]: the slideshow as a service of the operating system.
//! - [`error`]: what can go wrong.

pub mod caption;
pub mod capture;
pub mod catalog;
pub mod counter;
pub mod error;
pub mod metadata;
pub mod path;
pub mod random;
pub mod service;
pub mod settings;
pub mod state;

//! Materializes clipboard content (file references, RGBA images, plain text)
//! into a destination directory, and renders relative dates.
//!
//! Everything that decides what is written and printed lives here and is
//! verified; reading the clipboard, touching the file system and printing are
//! left to the program that links this library.

pub mod bitmap;
pub mod clock;
pub mod content;
pub mod date;
pub mod error;
pub mod files;
pub mod naming;
pub mod text;

pub use clock::timestamp;
pub use content::{choose_content, Content};
pub use date::{
    date, next_week_day, render_date, weekday_from_monday, DateError, Now, WhatTypes, DAY_MILLIS,
};
pub use error::PasteError;
pub use files::{copy_check, plan_copies, plan_copies_at, plan_copy, underscore_spaces, CopyStep};
pub use bitmap::{check_image, finish_image, plan_image, plan_image_at, ImageStep, RawImage};
pub use naming::{
    extension_of, is_image_extension, is_image_file, join_path, name_extension, name_stem, stem_of,
};
pub use text::{is_blank, is_white_space, text_block, text_output};

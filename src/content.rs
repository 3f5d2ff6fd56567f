//! Choosing what to paste: a file list wins over an image, an image over text,
//! and blank text is nothing to paste.

use vstd::prelude::*;
use crate::bitmap::RawImage;
use crate::text::{blank, is_blank};

verus! {

/// The one kind of clipboard content that a paste acts on.
pub enum Content {
    FileList(Vec<String>),
    Image(RawImage),
    Text(String),
    Empty,
}

/// The content a paste acts on: the file list if the clipboard gave one, else
/// the image, else the text unless it is blank, else nothing.
pub open spec fn chosen(
    file_list: Option<Vec<String>>,
    image: Option<RawImage>,
    text: Option<String>,
) -> Content {
    match (file_list, image, text) {
        (Some(f), _, _) => Content::FileList(f),
        (None, Some(i), _) => Content::Image(i),
        (None, None, Some(t)) => if blank(t@) {
            Content::Empty
        } else {
            Content::Text(t)
        },
        (None, None, None) => Content::Empty,
    }
}

/// Picks the content to paste from what each clipboard query returned
/// (`None` where the query failed).
pub fn choose_content(
    file_list: Option<Vec<String>>,
    image: Option<RawImage>,
    text: Option<String>,
) -> (r: Content)
    ensures
        r == chosen(file_list, image, text),
{
    if let Some(f) = file_list {
        return Content::FileList(f);
    }
    if let Some(i) = image {
        return Content::Image(i);
    }
    match text {
        Some(t) => {
            if is_blank(t.as_str()) {
                Content::Empty
            } else {
                Content::Text(t)
            }
        },
        None => Content::Empty,
    }
}

/// A file list wins whatever else the clipboard holds; an image wins over
/// text; blank text, like no text, is nothing to paste.
pub proof fn lemma_dispatch_priority(files: Vec<String>, image: Option<RawImage>, text: Option<String>)
    ensures
        chosen(Some(files), image, text) == Content::FileList(files),
        image matches Some(i) ==> chosen(None, image, text) == Content::Image(i),
        forall|t: String| blank(t@) ==> chosen(None, None, Some(t)) == Content::Empty,
        chosen(None, None, None) == Content::Empty,
{
}

} // verus!

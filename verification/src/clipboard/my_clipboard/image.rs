//! Copied pictures.

use vstd::prelude::*;
use crate::clipboard::{content_view, ClipboardContent, ContentView, ImageData, ImageView};

verus! {

/// An optional picture, taken by its view.
pub open spec fn opt_image(i: Option<ImageData>) -> Option<ImageView> {
    match i {
        Some(x) => Some(x@),
        None => None,
    }
}

/// The picture that was stored last, if any was.
pub fn get_prev_image_data(prev_image: &Option<ImageData>) -> (r: Result<Option<ImageData>, String>)
    ensures
        r is Ok,
        opt_image(r->Ok_0) == opt_image(*prev_image),
{
    match prev_image {
        Some(i) => Ok(Some(i.clone())),
        None => Ok(None),
    }
}

/// Forgets the picture that was stored last.
pub fn init_prev_image(prev_image: &mut Option<ImageData>) -> (r: Result<(), String>)
    ensures
        r is Ok,
        *final(prev_image) is None,
{
    *prev_image = None;
    Ok(())
}

/// Remembers `image_data` as the picture that was stored last.
pub fn set_prev_image(prev_image: &mut Option<ImageData>, image_data: ImageData) -> (r: Result<
    (),
    String,
>)
    ensures
        r is Ok,
        opt_image(*final(prev_image)) == Some(image_data@),
{
    *prev_image = Some(image_data);
    Ok(())
}

/// Whether two pictures have the same size and the same bytes.
pub fn eq(image_data1: &ImageData, image_data2: &ImageData) -> (r: bool)
    ensures
        r == (image_data1@ == image_data2@),
{
    if image_data1.width != image_data2.width || image_data1.height != image_data2.height {
        return false;
    }
    if image_data1.bytes.len() != image_data2.bytes.len() {
        return false;
    }
    let n: usize = image_data1.bytes.len();
    let mut i: usize = 0;
    while i < n
        invariant
            n == image_data1.bytes@.len(),
            n == image_data2.bytes@.len(),
            i <= n,
            forall|k: int| 0 <= k < i ==> image_data1.bytes@[k] == image_data2.bytes@[k],
        decreases n - i,
    {
        if image_data1.bytes[i] != image_data2.bytes[i] {
            return false;
        }
        i += 1;
    }
    assert(image_data1.bytes@ =~= image_data2.bytes@);
    true
}

/// Whether two pictures have the same size and the same bytes.
pub fn image_eq(image_data1: &ImageData, image_data2: &ImageData) -> (r: bool)
    ensures
        r == (image_data1@ == image_data2@),
{
    eq(image_data1, image_data2)
}

/// What a picture on the clipboard leads to: a picture that differs from the
/// one stored last, or the first one, is remembered and stored.
pub open spec fn copied_image(prev: Option<ImageView>, image: ImageView) -> (
    Option<ImageView>,
    Option<ContentView>,
) {
    if prev == Some(image) {
        (prev, None)
    } else {
        (Some(image), Some(ContentView::Image(image)))
    }
}

/// Takes the picture that the clipboard holds.
pub fn on_copy(prev_image: &mut Option<ImageData>, image_data: ImageData) -> (r: Option<
    ClipboardContent,
>)
    ensures
        (opt_image(*final(prev_image)), content_view(r)) == copied_image(
            opt_image(*old(prev_image)),
            image_data@,
        ),
{
    let same = match prev_image {
        None => false,
        Some(i) => eq(i, &image_data),
    };
    if same {
        None
    } else {
        *prev_image = Some(image_data.clone());
        Some(ClipboardContent::Image(image_data))
    }
}

} // verus!

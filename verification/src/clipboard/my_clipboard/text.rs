//! Copied text.

use vstd::prelude::*;
use vstd::string::*;
use crate::clipboard::{ClipboardContent, ContentView};
use crate::text::{copy_opt, opt_text, same_text};

verus! {

/// The text that was taken over first, if any was.
pub fn get_previous_text(prev_text: &Option<String>) -> (r: Result<Option<String>, String>)
    ensures
        r is Ok,
        opt_text(r->Ok_0) == opt_text(*prev_text),
{
    Ok(copy_opt(prev_text))
}

/// Remembers `text` as the text that was taken over.
pub fn set_previous_text(prev_text: &mut Option<String>, text: String) -> (r: Result<(), String>)
    ensures
        r is Ok,
        opt_text(*final(prev_text)) == Some(text@),
{
    *prev_text = Some(text);
    Ok(())
}

/// What follows a copy.
#[derive(Debug, PartialEq, Eq)]
pub enum CopyStep {
    /// Store this content.
    Save(ClipboardContent),
    /// The clipboard holds what was seen before: do nothing.
    Skip,
    /// The clipboard holds no text: look for a picture.
    TryImage,
}

/// What follows a copy, as plain values.
pub enum CopyStepView {
    Save(ContentView),
    Skip,
    TryImage,
}

impl View for CopyStep {
    type V = CopyStepView;

    open spec fn view(&self) -> CopyStepView {
        match *self {
            CopyStep::Save(c) => CopyStepView::Save(c@),
            CopyStep::Skip => CopyStepView::Skip,
            CopyStep::TryImage => CopyStepView::TryImage,
        }
    }
}

/// What a copy leads to. Without text on the clipboard the picture is
/// looked at. The first text ever seen is remembered and stored. Any later
/// text is stored where it differs from the remembered one, which stays.
pub open spec fn copied(prev: Option<Seq<char>>, text: Option<Seq<char>>) -> (
    Option<Seq<char>>,
    CopyStepView,
) {
    match text {
        None => (prev, CopyStepView::TryImage),
        Some(t) => match prev {
            None => (Some(t), CopyStepView::Save(ContentView::Text(t))),
            Some(p) => if t != p {
                (prev, CopyStepView::Save(ContentView::Text(t)))
            } else {
                (prev, CopyStepView::Skip)
            },
        },
    }
}

/// Takes what the clipboard holds as text after a copy; `text` is absent
/// where it holds none.
pub fn on_copy(prev_text: &mut Option<String>, text: Option<String>) -> (r: CopyStep)
    ensures
        (opt_text(*final(prev_text)), r@) == copied(opt_text(*old(prev_text)), opt_text(text)),
{
    match text {
        None => CopyStep::TryImage,
        Some(t) => {
            let differs = match prev_text {
                None => None,
                Some(p) => Some(!same_text(t.as_str(), p.as_str())),
            };
            match differs {
                None => {
                    *prev_text = Some(t.clone());
                    CopyStep::Save(ClipboardContent::Text(t))
                },
                Some(true) => CopyStep::Save(ClipboardContent::Text(t)),
                Some(false) => CopyStep::Skip,
            }
        },
    }
}

} // verus!

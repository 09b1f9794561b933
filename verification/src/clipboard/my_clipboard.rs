//! The clipboard watch: what was seen last, and what is stored.

use vstd::prelude::*;
use vstd::string::*;
use crate::clipboard::{ClipboardContent, ContentView};

pub mod image;
pub mod text;

verus! {

/// The extension under which content is stored, with its dot.
pub open spec fn extension_of(content: ContentView) -> Seq<char> {
    match content {
        ContentView::Text(_) => ".txt"@,
        ContentView::Image(_) => ".png"@,
    }
}

/// The name of the file that takes `contents`: the time stamp, and the
/// extension of the kind.
pub fn save_contents(timestamp: String, contents: &ClipboardContent) -> (name: String)
    ensures
        name@ == timestamp@ + extension_of(contents@),
{
    let mut name = timestamp;
    match contents {
        ClipboardContent::Text(_) => {
            name.append(".txt");
        },
        ClipboardContent::Image(_) => {
            name.append(".png");
        },
    }
    name
}

} // verus!

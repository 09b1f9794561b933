//! What is taken from the system clipboard, and what of it is new.

use vstd::prelude::*;
use vstd::string::*;
use crate::text::opt_text;

pub mod my_clipboard;

verus! {

/// How many clipboard items are kept.
pub const MAX_CLIPBOARD_ITEMS: i32 = 150;

/// The interval of the image check, in milliseconds.
pub const IMG_THREAD_INTERVAL: u64 = 1000;

/// A picture as the clipboard hands it out: its size in pixels and four
/// bytes for each pixel.
#[derive(Debug, PartialEq, Eq)]
pub struct ImageData {
    pub width: usize,
    pub height: usize,
    pub bytes: Vec<u8>,
}

/// A picture as plain values.
pub struct ImageView {
    pub width: usize,
    pub height: usize,
    pub bytes: Seq<u8>,
}

impl View for ImageData {
    type V = ImageView;

    open spec fn view(&self) -> ImageView {
        ImageView { width: self.width, height: self.height, bytes: self.bytes@ }
    }
}

impl Clone for ImageData {
    fn clone(&self) -> (r: ImageData)
        ensures
            r@ == self@,
    {
        let n: usize = self.bytes.len();
        let mut bytes: Vec<u8> = Vec::new();
        let mut i: usize = 0;
        while i < n
            invariant
                n == self.bytes@.len(),
                i <= n,
                bytes@ == self.bytes@.subrange(0, i as int),
            decreases n - i,
        {
            bytes.push(self.bytes[i]);
            i += 1;
        }
        assert(bytes@ =~= self.bytes@);
        ImageData { width: self.width, height: self.height, bytes }
    }
}

/// What the clipboard held.
#[derive(Debug, PartialEq, Eq)]
pub enum ClipboardContent {
    Text(String),
    Image(ImageData),
}

/// Clipboard content as plain values.
pub enum ContentView {
    Text(Seq<char>),
    Image(ImageView),
}

impl View for ClipboardContent {
    type V = ContentView;

    open spec fn view(&self) -> ContentView {
        match *self {
            ClipboardContent::Text(s) => ContentView::Text(s@),
            ClipboardContent::Image(i) => ContentView::Image(i@),
        }
    }
}

/// Optional content, taken by its view.
pub open spec fn content_view(c: Option<ClipboardContent>) -> Option<ContentView> {
    match c {
        Some(x) => Some(x@),
        None => None,
    }
}

/// A stored clipboard item as the window names it.
#[derive(Debug, PartialEq, Eq)]
pub struct ClipboardItem {
    pub name: String,
    pub folder: String,
    pub path: String,
    pub contents: Option<String>,
}

/// A stored item as plain values.
pub struct ClipboardItemView {
    pub name: Seq<char>,
    pub folder: Seq<char>,
    pub path: Seq<char>,
    pub contents: Option<Seq<char>>,
}

impl View for ClipboardItem {
    type V = ClipboardItemView;

    open spec fn view(&self) -> ClipboardItemView {
        ClipboardItemView {
            name: self.name@,
            folder: self.folder@,
            path: self.path@,
            contents: opt_text(self.contents),
        }
    }
}

/// The extensions of stored items.
pub struct FileTypes;

impl FileTypes {
    pub const TXT: &'static str = "txt";

    pub const PNG: &'static str = "png";
}

/// How a stored item goes back to the clipboard.
#[derive(Clone, Copy, Debug, PartialEq, Eq, Structural)]
pub enum PasteKind {
    /// As text, read from the file.
    Text,
    /// As a picture, decoded from the file.
    Image,
    /// Not at all: the extension is unknown.
    Nothing,
}

/// The kind that an extension stands for.
pub open spec fn kind_of(extension: Seq<char>) -> PasteKind {
    if extension == "txt"@ {
        PasteKind::Text
    } else if extension == "png"@ {
        PasteKind::Image
    } else {
        PasteKind::Nothing
    }
}

/// Decides by the extension of a stored item how it is pasted.
pub fn paste(extension: &str) -> (r: PasteKind)
    ensures
        r == kind_of(extension@),
{
    if crate::text::same_text(extension, "txt") {
        PasteKind::Text
    } else if crate::text::same_text(extension, "png") {
        PasteKind::Image
    } else {
        PasteKind::Nothing
    }
}

} // verus!

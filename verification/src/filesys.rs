//! Names and addresses in the data directory.

use vstd::prelude::*;
use vstd::string::*;
use crate::text::{hex_digit, texts};

verus! {

pub const FOLDER_DATA: &'static str = "data";

pub const FOLDER_CLIPBOARD: &'static str = "clipboard";

pub const FOLDER_FAVOURITES: &'static str = "favorites";

pub const FILENAME_AUTO_REPLACEMENT: &'static str = "autoreplace.json";

pub const FILENAME_APPS_BLACKLIST: &'static str = "blacklist.json";

pub const FILENAME_SETTINGS: &'static str = "settings.json";

/// How many characters of a stored text are shown.
pub const FILE_MAX_LENGTH: u8 = 255;

/// A message to the window.
#[derive(Debug, PartialEq, Eq)]
pub struct Payload {
    pub message: String,
}

/// How many of `count` files go when at most `max` may stay.
pub open spec fn excess(count: int, max: int) -> int {
    if count <= max {
        0
    } else if max < 0 {
        count
    } else {
        count - max
    }
}

/// The files to remove from a folder that may hold at most `max_files_count`
/// files: as many as there are too many, from the front of the listing.
pub fn remove_extra_files(files: &Vec<String>, max_files_count: i32) -> (r: Vec<String>)
    ensures
        texts(r@) == texts(files@).take(excess(files@.len() as int, max_files_count as int)),
{
    let n: usize = files.len();
    let keep: usize = if max_files_count < 0 {
        0
    } else {
        max_files_count as usize
    };
    let mut out: Vec<String> = Vec::new();
    if n <= keep {
        assert(texts(out@) =~= texts(files@).take(0));
        return out;
    }
    let extra: usize = n - keep;
    let mut i: usize = 0;
    while i < extra
        invariant
            n == files@.len(),
            extra <= n,
            i <= extra,
            out@.len() == i,
            forall|k: int| 0 <= k < i ==> (#[trigger] out@[k])@ == files@[k]@,
        decreases extra - i,
    {
        out.push(files[i].clone());
        i += 1;
    }
    assert(texts(out@) =~= texts(files@).take(extra as int));
    out
}

/// A byte that stands for itself in an address: an ASCII letter or digit.
pub open spec fn ascii_alphanumeric(b: u8) -> bool {
    ||| 0x30 <= b <= 0x39
    ||| 0x41 <= b <= 0x5A
    ||| 0x61 <= b <= 0x7A
}

/// One byte, percent-encoded: itself where it is an ASCII letter or digit,
/// else a percent sign and its two hexadecimal digits in upper case.
pub open spec fn encoded_byte(b: u8) -> Seq<char> {
    if ascii_alphanumeric(b) {
        seq![b as char]
    } else {
        seq!['%', hex_digit(b as int / 16), hex_digit(b as int % 16)]
    }
}

/// A run of bytes, percent-encoded byte by byte.
pub open spec fn percent_encoded(bytes: Seq<u8>) -> Seq<char>
    decreases bytes.len(),
{
    if bytes.len() == 0 {
        Seq::empty()
    } else {
        percent_encoded(bytes.drop_last()) + encoded_byte(bytes.last())
    }
}

/// `percent_encoding::utf8_percent_encode` with the set `NON_ALPHANUMERIC`,
/// written out as a string. The crate encodes the UTF-8 bytes of the input
/// one by one: a byte that is an ASCII letter or digit is kept, every other
/// byte becomes a percent sign and two upper-case hexadecimal digits.
#[verifier::external_body]
fn percent_encode_non_alphanumeric(input: &str) -> (r: String)
    ensures
        r@ == percent_encoded(input.spec_bytes()),
{
    percent_encoding::utf8_percent_encode(input, percent_encoding::NON_ALPHANUMERIC).to_string()
}

/// Where the window finds assets.
pub open spec fn asset_origin() -> Seq<char> {
    "https://asset.localhost/"@
}

/// The address under which the window can load the file at `path`.
pub fn asset_path(path: &str) -> (r: String)
    ensures
        r@ == asset_origin() + percent_encoded(path.spec_bytes()),
{
    let url = percent_encode_non_alphanumeric(path);
    let mut out: String = "https://asset.localhost/".to_owned();
    out.append(url.as_str());
    out
}

} // verus!

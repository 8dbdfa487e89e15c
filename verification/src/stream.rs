//! Serving media files to the player.
//!
//! The player asks for a file by a path that is percent-encoded. This
//! module finds the file's path and says what kind of content it is.

use vstd::prelude::*;
use vstd::string::*;
use crate::diagnostics::chars_of;
use crate::outside::{decode_percent, percent_decoded};

verus! {

/// Whether `text` ends with `suffix`.
pub open spec fn ends_with(text: Seq<char>, suffix: Seq<char>) -> bool {
    suffix.len() <= text.len() && text.skip(text.len() - suffix.len()) == suffix
}

/// The kind of content of the file at `path`, going by how its name ends.
pub open spec fn content_type_of(path: Seq<char>) -> Seq<char> {
    if ends_with(path, ".mp4"@) {
        "video/mp4"@
    } else if ends_with(path, ".mov"@) {
        "video/quicktime"@
    } else if ends_with(path, ".webm"@) {
        "video/webm"@
    } else if ends_with(path, ".avi"@) {
        "video/x-msvideo"@
    } else if ends_with(path, ".mkv"@) {
        "video/x-matroska"@
    } else {
        "application/octet-stream"@
    }
}

/// The path of the file that the request path asks for: the request path
/// without its leading slash, percent-decoded; empty where it cannot be
/// decoded.
pub open spec fn requested_path_of(request: Seq<char>) -> Seq<char> {
    match percent_decoded(request.skip(1)) {
        Some(path) => path,
        None => Seq::empty(),
    }
}

fn has_suffix(text: &Vec<char>, suffix: &str) -> (r: bool)
    ensures
        r == ends_with(text@, suffix@),
{
    let tail = chars_of(suffix);
    if tail.len() > text.len() {
        return false;
    }
    let offset: usize = text.len() - tail.len();
    let ghost end = text@.skip(offset as int);
    let mut i: usize = 0;
    while i < tail.len()
        invariant
            i <= tail.len(),
            offset + tail.len() == text.len(),
            end == text@.skip(offset as int),
            tail@ == suffix@,
            forall|j: int| 0 <= j < i ==> end[j] == tail@[j],
        decreases tail.len() - i,
    {
        assert(end[i as int] == text@[offset + i]);
        if text[offset + i] != tail[i] {
            return false;
        }
        i += 1;
    }
    assert(end =~= tail@);
    true
}

/// The kind of content of the file at `path`.
pub fn content_type_for(path: &str) -> (kind: &'static str)
    ensures
        kind@ == content_type_of(path@),
{
    let text = chars_of(path);
    if has_suffix(&text, ".mp4") {
        "video/mp4"
    } else if has_suffix(&text, ".mov") {
        "video/quicktime"
    } else if has_suffix(&text, ".webm") {
        "video/webm"
    } else if has_suffix(&text, ".avi") {
        "video/x-msvideo"
    } else if has_suffix(&text, ".mkv") {
        "video/x-matroska"
    } else {
        "application/octet-stream"
    }
}

/// The path of the file that `request_path` asks for. A request path begins
/// with a slash.
pub fn requested_file_path(request_path: &str) -> (path: String)
    requires
        request_path@.len() >= 1,
    ensures
        path@ == requested_path_of(request_path@),
{
    let count = request_path.unicode_len();
    let rest = request_path.substring_char(1, count);
    assert(rest@ =~= request_path@.skip(1));
    match decode_percent(rest) {
        Some(path) => path,
        None => String::new(),
    }
}

} // verus!

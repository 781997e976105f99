//! Content-type table for the static dashboard assets. Serving the assets
//! is the embedded web server's business, an external collaborator; the
//! mapping from a file path's extension to its media type is fixed here.

use vstd::prelude::*;

use crate::text::str_eq;

verus! {

/// Start of the extension of `s` within its first `i` characters: the
/// position right after the last `.`, or 0 when there is none.
pub open spec fn ext_start(s: Seq<char>, i: int) -> int
    decreases i,
{
    if i <= 0 {
        0
    } else if s[i - 1] == '.' {
        i
    } else {
        ext_start(s, i - 1)
    }
}

/// The extension of a path: what follows the last `.`, or the whole path
/// when it has none.
pub open spec fn spec_extension(s: Seq<char>) -> Seq<char> {
    s.subrange(ext_start(s, s.len() as int), s.len() as int)
}

/// The media type served for a path, decided by its extension.
pub open spec fn spec_content_type(path: Seq<char>) -> Seq<char> {
    let e = spec_extension(path);
    if e == "html"@ {
        "text/html; charset=utf-8"@
    } else if e == "css"@ {
        "text/css; charset=utf-8"@
    } else if e == "js"@ {
        "application/javascript; charset=utf-8"@
    } else if e == "json"@ {
        "application/json"@
    } else if e == "svg"@ {
        "image/svg+xml"@
    } else if e == "png"@ {
        "image/png"@
    } else if e == "ico"@ {
        "image/x-icon"@
    } else if e == "woff"@ {
        "font/woff"@
    } else if e == "woff2"@ {
        "font/woff2"@
    } else if e == "txt"@ {
        "text/plain; charset=utf-8"@
    } else {
        "application/octet-stream"@
    }
}

/// Media type for a static asset path, decided by the text after the last
/// dot; unknown extensions are served as opaque bytes.
pub fn content_type(path: &str) -> (r: &'static str)
    ensures
        r@ == spec_content_type(path@),
{
    let len = path.unicode_len();
    let mut i: usize = len;
    while i > 0 && path.get_char(i - 1) != '.'
        invariant
            len == path@.len(),
            i <= len,
            ext_start(path@, len as int) == ext_start(path@, i as int),
        decreases i,
    {
        i -= 1;
    }
    let ext = path.substring_char(i, len);
    assert(ext@ == spec_extension(path@));
    if str_eq(ext, "html") {
        "text/html; charset=utf-8"
    } else if str_eq(ext, "css") {
        "text/css; charset=utf-8"
    } else if str_eq(ext, "js") {
        "application/javascript; charset=utf-8"
    } else if str_eq(ext, "json") {
        "application/json"
    } else if str_eq(ext, "svg") {
        "image/svg+xml"
    } else if str_eq(ext, "png") {
        "image/png"
    } else if str_eq(ext, "ico") {
        "image/x-icon"
    } else if str_eq(ext, "woff") {
        "font/woff"
    } else if str_eq(ext, "woff2") {
        "font/woff2"
    } else if str_eq(ext, "txt") {
        "text/plain; charset=utf-8"
    } else {
        "application/octet-stream"
    }
}

} // verus!

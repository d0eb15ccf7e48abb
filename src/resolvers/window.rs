//! Services whose pages redirect by `window.open` or `window.location`.
use vstd::prelude::*;

use crate::pattern::{extract, extraction};
use crate::text::{chars_of, contains, holds, text_view};

verus! {

pub const OPEN_CALL: &'static str = "window.open(\"";

pub const LOCATION_ASSIGNMENT: &'static str = "window.location='";

/// The URL handed to `window.open`.
pub const OPEN_PATTERN: &'static str = "window.open\\(\"([^\"\\)]*)";

/// The URL assigned to `window.location`.
pub const LOCATION_PATTERN: &'static str = "window.location='(.*)';";

/// What a page that redirects by script names: the URL that it opens, or
/// else the one that it assigns to the location.
pub open spec fn window_link(page: Seq<char>) -> Option<Seq<char>> {
    if contains(page, OPEN_CALL@) {
        extraction(OPEN_PATTERN@, page)
    } else if contains(page, LOCATION_ASSIGNMENT@) {
        extraction(LOCATION_PATTERN@, page)
    } else {
        None
    }
}

/// The destination that the page's script redirects to.
pub fn unshort(page: &str) -> (r: Option<String>)
    ensures
        text_view(r) == window_link(page@),
{
    let p = chars_of(page);
    if holds(&p, OPEN_CALL) {
        extract(page, OPEN_PATTERN)
    } else if holds(&p, LOCATION_ASSIGNMENT) {
        extract(page, LOCATION_PATTERN)
    } else {
        None
    }
}

} // verus!

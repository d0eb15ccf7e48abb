//! A service whose landing page introduces the destination in a sentence.
use vstd::prelude::*;

use crate::pattern::{extract, extraction};
use crate::text::text_view;

verus! {

/// The link that follows the landing page's introduction.
pub const INTRODUCED_LINK_PATTERN: &'static str = "Here is the URL which you want to visit:<br><br>\n<a href=\"([^\">]*)";

/// The destination that the landing page introduces.
pub fn unshort(page: &str) -> (r: Option<String>)
    ensures
        text_view(r) == extraction(INTRODUCED_LINK_PATTERN@, page@),
{
    extract(page, INTRODUCED_LINK_PATTERN)
}

} // verus!

//! A service whose landing page shows the destination as a new-window link.
use vstd::prelude::*;

use crate::pattern::{extract, extraction};
use crate::text::text_view;

verus! {

/// The text of the page's new-window link.
pub const NEW_WINDOW_LINK_PATTERN: &'static str = "target='_blank'>([^<]*)";

/// The destination that the landing page shows as a new-window link.
pub fn unshort(page: &str) -> (r: Option<String>)
    ensures
        text_view(r) == extraction(NEW_WINDOW_LINK_PATTERN@, page@),
{
    extract(page, NEW_WINDOW_LINK_PATTERN)
}

} // verus!

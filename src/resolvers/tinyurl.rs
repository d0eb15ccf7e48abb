//! A service whose preview page marks the destination link by its id.
use vstd::prelude::*;

use crate::pattern::{extract, extraction};
use crate::text::text_view;

verus! {

/// The target of the link with id `redirecturl`.
pub const REDIRECT_LINK_PATTERN: &'static str = "\"redirecturl\" href=\"(.*)\">";

/// The destination of the preview page's marked link.
pub fn unshort(page: &str) -> (r: Option<String>)
    ensures
        text_view(r) == extraction(REDIRECT_LINK_PATTERN@, page@),
{
    extract(page, REDIRECT_LINK_PATTERN)
}

} // verus!

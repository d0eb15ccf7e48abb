//! A service that answers with a meta refresh inside a successful page.
use vstd::prelude::*;

use crate::pattern::{extract, extraction};
use crate::text::text_view;

verus! {

/// The refresh target, up to the end of its tag.
pub const REFRESH_TAG_PATTERN: &'static str = "URL=(.*)\">";

/// The destination of a page answered with `status`: the refresh target of
/// a 200 page, nothing on any other status.
pub fn unshort(status: u16, page: &str) -> (r: Option<String>)
    ensures
        text_view(r) == if status == 200 {
            extraction(REFRESH_TAG_PATTERN@, page@)
        } else {
            None
        },
{
    if status == 200 {
        extract(page, REFRESH_TAG_PATTERN)
    } else {
        None
    }
}

} // verus!

//! Services that redirect by an HTML meta refresh.
use vstd::prelude::*;

use crate::pages::{meta_refresh_link, META_REFRESH_PATTERN};
use crate::pattern::extract;
use crate::text::text_view;

verus! {

/// The target of the page's meta refresh.
pub fn unshort(page: &str) -> (r: Option<String>)
    ensures
        text_view(r) == meta_refresh_link(page@),
{
    extract(page, META_REFRESH_PATTERN)
}

} // verus!

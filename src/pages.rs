//! What each content-based strategy reads from a page, a header or a tool's
//! output to find the destination.
use vstd::prelude::*;

use crate::cipher::{decode_ysmm, obfuscated_destination};
use crate::error::Error;
use crate::pattern::{extract, extraction};
use crate::text::{
    after, after_last, before, chars_of, contains, ends_with, find, find_last, has_prefix,
    has_suffix, holds, index_of, last_index_of, lemma_index_of_from, lemma_last_index_upto,
    occurs_at, piece_after, piece_before, second_piece, second_piece_of, slice_chars,
    starts_with, string_from_chars, text_view,
};

verus! {

/// The target of a meta refresh, quoted or not.
pub const META_REFRESH_PATTERN: &'static str = "URL=\"?([^\"]*)";

/// The script and link idioms that script-redirect pages use, in priority order.
pub const SCRIPT_REDIRECT_PATTERN: &'static str = "Here is the URL which you want to visit:<br><br>\\n<a href=\"([^\">]*)|window.open\\([\"']([^'\"\\)]*)|window.location[= '\"]*([^'\"]*)|target='_blank'>([^<]*)|\"redirecturl\" href=\"(.*)\">|src=['\"]([^\"']*)\" scrolling";

/// The opening of the script variable that holds the obfuscated payload.
pub const PAYLOAD_OPEN: &'static str = "ysmm = '";

/// The end of the script variable that holds the obfuscated payload.
pub const PAYLOAD_CLOSE: &'static str = "';";

/// The opening of the click target of an ad page.
pub const CLICK_OPEN: &'static str = "click_url = \"";

/// The end of the click target of an ad page.
pub const CLICK_CLOSE: &'static str = "\";";

/// The attribute that marks the outbound link of a warning page.
pub const WARNING_MARK: &'static str = "data-tracking-control-name=\"external_url_click\"";

/// The opening of a link's target.
pub const HREF_OPEN: &'static str = "href=\"";

/// The end of a link's target and of its opening tag.
pub const HREF_CLOSE: &'static str = "\">";

/// The text of the anchor that links straight to the destination.
pub const DIRECT_LINK_MARK: &'static str = "Direct link";

/// The markers after which a page may hold the destination, in priority order.
pub const PREVIEW_MARK: &'static str = "api.miniature.io/?url=";

pub const JSON_URL_MARK: &'static str = "\"url\":\"";

pub const QUERY_URL_MARK: &'static str = "url=";

/// Where a service's own pages live, to tell that a redirect did not leave it.
pub const SERVICE_SITE: &'static str = "linkedin.com";

pub const SERVICE_SHORT_SITE: &'static str = "lnkd.in";

/// The target of a meta refresh on the page.
pub open spec fn meta_refresh_link(page: Seq<char>) -> Option<Seq<char>> {
    extraction(META_REFRESH_PATTERN@, page)
}

/// The target of the first script or link idiom that the page uses.
pub open spec fn script_link(page: Seq<char>) -> Option<Seq<char>> {
    extraction(SCRIPT_REDIRECT_PATTERN@, page)
}

/// The value of the script variable that holds the obfuscated payload.
pub open spec fn payload_variable(page: Seq<char>) -> Option<Seq<char>> {
    match second_piece(page, PAYLOAD_OPEN@) {
        Some(v) => Some(before(v, PAYLOAD_CLOSE@)),
        None => None,
    }
}

/// The destination that the page's obfuscated payload hides.
pub open spec fn payload_link(page: Seq<char>) -> Option<Seq<char>> {
    match payload_variable(page) {
        Some(v) => obfuscated_destination(v),
        None => None,
    }
}

/// The click target of an ad page.
pub open spec fn click_link(page: Seq<char>) -> Option<Seq<char>> {
    match second_piece(page, CLICK_OPEN@) {
        Some(v) => Some(before(v, CLICK_CLOSE@)),
        None => None,
    }
}

/// The outbound link of a warning page: the first link target after the
/// marking attribute.
pub open spec fn warning_link(page: Seq<char>) -> Option<Seq<char>> {
    match second_piece(page, WARNING_MARK@) {
        Some(a) => match second_piece(a, HREF_OPEN@) {
            Some(b) => Some(before(b, HREF_CLOSE@)),
            None => None,
        },
        None => None,
    }
}

/// The text up to the next double quote.
pub open spec fn quoted(s: Seq<char>) -> Seq<char> {
    before(s, "\""@)
}

/// The target of the last link that opens before the direct-link anchor text.
pub open spec fn direct_link(page: Seq<char>) -> Option<Seq<char>> {
    match index_of(page, DIRECT_LINK_MARK@) {
        Some(i) => {
            let pre = page.take(i);
            match last_index_of(pre, HREF_OPEN@) {
                Some(h) => Some(quoted(pre.skip(h + HREF_OPEN@.len()))),
                None => None,
            }
        },
        None => None,
    }
}

/// The quoted value after the first `marker` on the page.
pub open spec fn marked_value(page: Seq<char>, marker: Seq<char>) -> Option<Seq<char>> {
    match after(page, marker) {
        Some(rest) => Some(quoted(rest)),
        None => None,
    }
}

/// A candidate that looks like an absolute web URL.
pub open spec fn absolute(c: Option<Seq<char>>) -> bool {
    c matches Some(u) && (starts_with(u, "http://"@) || starts_with(u, "https://"@))
}

/// The quoted value after the last `marker` on the page.
pub open spec fn last_marked_value(page: Seq<char>, marker: Seq<char>) -> Option<Seq<char>> {
    match last_index_of(page, marker) {
        Some(i) => Some(quoted(page.skip(i + marker.len()))),
        None => None,
    }
}

/// The first candidate that looks like an absolute URL: the direct link,
/// then the values after the last preview marker and after the first JSON
/// and query markers.
pub open spec fn fallback_link(page: Seq<char>) -> Option<Seq<char>> {
    let d = direct_link(page);
    let p = last_marked_value(page, PREVIEW_MARK@);
    let j = marked_value(page, JSON_URL_MARK@);
    let q = marked_value(page, QUERY_URL_MARK@);
    if absolute(d) {
        d
    } else if absolute(p) {
        p
    } else if absolute(j) {
        j
    } else if absolute(q) {
        q
    } else {
        None
    }
}

/// A redirect that ended on the service's own site.
pub open spec fn on_service_site(reached: Seq<char>) -> bool {
    contains(reached, SERVICE_SITE@) || contains(reached, SERVICE_SHORT_SITE@)
}

/// A redirect that did not move: the origin ends with what the reached URL
/// holds after its last `//`.
pub open spec fn unmoved(origin: Seq<char>, reached: Seq<char>) -> bool {
    ends_with(origin, after_last(reached, "//"@))
}

/// Where a page found no destination, as an outcome.
pub open spec fn found(link: Option<Seq<char>>) -> Result<Seq<char>, Error> {
    match link {
        Some(u) => Ok(u),
        None => Err(Error::NoString),
    }
}

/// The target of the first script or link idiom that the page uses.
pub fn script_target(page: &str) -> (r: Option<String>)
    ensures
        text_view(r) == script_link(page@),
{
    extract(page, SCRIPT_REDIRECT_PATTERN)
}

/// The destination that the page's obfuscated payload hides.
pub fn payload_target(page: &str) -> (r: Option<String>)
    ensures
        text_view(r) == payload_link(page@),
{
    let p = chars_of(page);
    match second_piece_of(&p, PAYLOAD_OPEN) {
        Some(v) => {
            let value = piece_before(&v, PAYLOAD_CLOSE);
            decode_ysmm(&value)
        },
        None => None,
    }
}

/// The click target of an ad page.
pub fn click_target(page: &str) -> (r: Option<String>)
    ensures
        text_view(r) == click_link(page@),
{
    let p = chars_of(page);
    match second_piece_of(&p, CLICK_OPEN) {
        Some(v) => Some(string_from_chars(&piece_before(&v, CLICK_CLOSE))),
        None => None,
    }
}

/// The outbound link of a warning page.
pub fn warning_target(page: &str) -> (r: Option<String>)
    ensures
        text_view(r) == warning_link(page@),
{
    let p = chars_of(page);
    match second_piece_of(&p, WARNING_MARK) {
        Some(a) => match second_piece_of(&a, HREF_OPEN) {
            Some(b) => Some(string_from_chars(&piece_before(&b, HREF_CLOSE))),
            None => None,
        },
        None => None,
    }
}

/// The target of the last link that opens before the direct-link anchor text.
fn direct_target(page: &Vec<char>) -> (r: Option<Vec<char>>)
    ensures
        match r {
            Some(v) => direct_link(page@) == Some(v@),
            None => direct_link(page@) is None,
        },
{
    let mark = chars_of(DIRECT_LINK_MARK);
    let i = match find(page, &mark) {
        Some(i) => i,
        None => return None,
    };
    proof {
        lemma_index_of_from(page@, mark@, 0);
    }
    let pre = slice_chars(page, 0, i);
    assert(pre@ =~= page@.take(i as int));
    let open = chars_of(HREF_OPEN);
    match find_last(&pre, &open) {
        Some(h) => {
            proof {
                lemma_last_index_upto(pre@, open@, pre@.len() - open@.len());
                assert(occurs_at(pre@, open@, h as int));
            }
            let n = pre.len();
            let rest = slice_chars(&pre, h + open.len(), n);
            assert(rest@ =~= pre@.skip(h + open@.len()));
            Some(piece_before(&rest, "\""))
        },
        None => None,
    }
}

/// The quoted value after the first `marker` on the page.
fn marked_target(page: &Vec<char>, marker: &str) -> (r: Option<Vec<char>>)
    ensures
        match r {
            Some(v) => marked_value(page@, marker@) == Some(v@),
            None => marked_value(page@, marker@) is None,
        },
{
    match piece_after(page, marker) {
        Some(rest) => Some(piece_before(&rest, "\"")),
        None => None,
    }
}

/// The quoted value after the last `marker` on the page.
fn last_marked_target(page: &Vec<char>, marker: &str) -> (r: Option<Vec<char>>)
    ensures
        match r {
            Some(v) => last_marked_value(page@, marker@) == Some(v@),
            None => last_marked_value(page@, marker@) is None,
        },
{
    let m = chars_of(marker);
    match find_last(page, &m) {
        Some(i) => {
            proof {
                lemma_last_index_upto(page@, m@, page@.len() - m@.len());
                assert(occurs_at(page@, m@, i as int));
            }
            let n = page.len();
            let rest = slice_chars(page, i + m.len(), n);
            assert(rest@ =~= page@.skip(i + m@.len()));
            Some(piece_before(&rest, "\""))
        },
        None => None,
    }
}

fn is_absolute(c: &Option<Vec<char>>) -> (r: bool)
    ensures
        r == absolute(
            match c {
                Some(v) => Some(v@),
                None => None,
            },
        ),
{
    match c {
        Some(v) => has_prefix(v, "http://") || has_prefix(v, "https://"),
        None => false,
    }
}

/// The first link on the page that looks like an absolute URL: the direct
/// link first, then the values after the last preview marker and after the
/// first JSON and query markers.
pub fn fallback_target(page: &str) -> (r: Option<String>)
    ensures
        text_view(r) == fallback_link(page@),
{
    let p = chars_of(page);
    let d = direct_target(&p);
    if is_absolute(&d) {
        return match d {
            Some(v) => Some(string_from_chars(&v)),
            None => None,
        };
    }
    let m = last_marked_target(&p, PREVIEW_MARK);
    if is_absolute(&m) {
        return match m {
            Some(v) => Some(string_from_chars(&v)),
            None => None,
        };
    }
    let j = marked_target(&p, JSON_URL_MARK);
    if is_absolute(&j) {
        return match j {
            Some(v) => Some(string_from_chars(&v)),
            None => None,
        };
    }
    let q = marked_target(&p, QUERY_URL_MARK);
    if is_absolute(&q) {
        return match q {
            Some(v) => Some(string_from_chars(&v)),
            None => None,
        };
    }
    None
}

/// The direct link wins over every marker: on a page whose direct-link
/// anchor holds an absolute URL, that URL is the link found, whatever
/// `url=` or other markers the page also holds.
pub proof fn lemma_direct_link_first(page: Seq<char>, u: Seq<char>)
    requires
        direct_link(page) == Some(u),
        starts_with(u, "http://"@) || starts_with(u, "https://"@),
    ensures
        fallback_link(page) == Some(u),
{
}

/// Whether a redirect ended on the service's own site.
pub fn on_service(reached: &str) -> (r: bool)
    ensures
        r == on_service_site(reached@),
{
    let v = chars_of(reached);
    holds(&v, SERVICE_SITE) || holds(&v, SERVICE_SHORT_SITE)
}

/// Whether a redirect did not move from `origin`.
pub fn did_not_move(origin: &str, reached: &str) -> (r: bool)
    ensures
        r == unmoved(origin@, reached@),
{
    let o = chars_of(origin);
    let v = chars_of(reached);
    let sep = chars_of("//");
    let tail = match find_last(&v, &sep) {
        Some(i) => {
            proof {
                crate::text::lemma_last_index_upto(v@, sep@, v@.len() - sep@.len());
                assert(occurs_at(v@, sep@, i as int));
            }
            let n = v.len();
            let t = slice_chars(&v, i + sep.len(), n);
            assert(t@ =~= v@.skip(i + sep@.len()));
            t
        },
        None => slice_chars(&v, 0, v.len()),
    };
    proof {
        if last_index_of(v@, sep@) is None {
            assert(tail@ =~= v@);
        }
    }
    has_suffix(&o, &tail)
}

} // verus!

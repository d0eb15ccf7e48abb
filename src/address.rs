//! URLs as plain values: parsing (through the url crate), validation of a
//! candidate against the registry, and the code segment of a short link.
use vstd::prelude::*;

use crate::services::{is_known, is_shortened, lemma_known_within};
use crate::text::{chars_of, contains, text_view};

verus! {

/// A parsed URL, held as the plain values that the library reads.
pub struct WebUrl {
    /// The canonical serialization.
    pub text: String,
    /// The host, if the URL has one.
    pub host: Option<String>,
    /// The host, if it is a domain name rather than an IP address.
    pub domain: Option<String>,
    /// The `/`-separated path segments, unless the URL cannot be a base.
    pub segments: Option<Vec<String>>,
}

/// The mathematical value of a parsed URL.
pub struct UrlParts {
    pub text: Seq<char>,
    pub host: Option<Seq<char>>,
    pub domain: Option<Seq<char>>,
    pub segments: Option<Seq<Seq<char>>>,
}

/// Why a string is not an absolute URL.
#[derive(Clone, Copy, Debug, PartialEq, Eq, Structural)]
pub enum UrlFault {
    /// The input has no scheme, so it could only be relative.
    MissingScheme,
    /// Any other parse failure.
    Malformed,
}

pub open spec fn texts_view(v: Seq<String>) -> Seq<Seq<char>> {
    v.map_values(|s: String| s@)
}

impl View for WebUrl {
    type V = UrlParts;

    open spec fn view(&self) -> UrlParts {
        UrlParts {
            text: self.text@,
            host: text_view(self.host),
            domain: text_view(self.domain),
            segments: match self.segments {
                Some(v) => Some(texts_view(v@)),
                None => None,
            },
        }
    }
}

/// What the url crate's parser makes of a string.
pub uninterp spec fn url_parse(s: Seq<char>) -> Result<UrlParts, UrlFault>;

/// Relies on `url::Url::parse` and on the parsed URL's `as_str`, `host_str`,
/// `domain` and `path_segments`. That a parsed URL parses again to the same
/// serialization and the same domain is what url's own
/// `Url::check_invariants` asserts ("Failed to parse myself?"); the domain is
/// a slice of the serialization (`self.slice(self.host_start..self.host_end)`).
#[verifier::external_body]
fn parse_url(s: &str) -> (r: Result<WebUrl, UrlFault>)
    ensures
        match r {
            Ok(u) => url_parse(s@) == Ok::<UrlParts, UrlFault>(u@),
            Err(e) => url_parse(s@) == Err::<UrlParts, UrlFault>(e),
        },
        r matches Ok(u) ==> (url_parse(u.text@) matches Ok(v) && v.text == u.text@ && (
        u.domain is Some ==> v.domain == text_view(u.domain))),
        r matches Ok(u) ==> (u.domain matches Some(d) ==> contains(u.text@, d@)),
{
    match url::Url::parse(s) {
        Ok(u) => Ok(WebUrl {
            text: u.as_str().to_string(),
            host: u.host_str().map(|h| h.to_string()),
            domain: u.domain().map(|d| d.to_string()),
            segments: u.path_segments().map(|it| it.map(|p| p.to_string()).collect()),
        }),
        Err(url::ParseError::RelativeUrlWithoutBase) => Err(UrlFault::MissingScheme),
        Err(_) => Err(UrlFault::Malformed),
    }
}

/// The parse of a candidate, retried with `https://` in front when it lacks a scheme.
pub open spec fn parse_with_default_scheme(input: Seq<char>) -> Result<UrlParts, UrlFault> {
    match url_parse(input) {
        Err(UrlFault::MissingScheme) => url_parse("https://"@ + input),
        other => other,
    }
}

/// The validated form of a candidate: the serialization of its parse, when
/// its domain is a registered one.
pub open spec fn validated(input: Seq<char>) -> Option<Seq<char>> {
    match parse_with_default_scheme(input) {
        Ok(p) => match p.domain {
            Some(d) => if is_known(d) {
                Some(p.text)
            } else {
                None
            },
            None => None,
        },
        Err(_) => None,
    }
}

/// Parses `input`, assuming `https://` when it has no scheme, and returns its
/// canonical form when its domain belongs to a known shortening service.
/// A validated URL validates to itself.
pub fn validate(input: &str) -> (r: Option<String>)
    ensures
        text_view(r) == validated(input@),
        r matches Some(t) ==> validated(t@) == Some(t@),
        r matches Some(t) ==> (url_parse(t@) matches Ok(p) && p.text == t@ && (p.domain matches Some(
            d,
        ) && is_known(d))),
        r matches Some(t) ==> is_known(t@),
{
    let parsed = match parse_url(input) {
        Err(UrlFault::MissingScheme) => {
            let mut with_scheme = "https://".to_owned();
            with_scheme.append(input);
            parse_url(with_scheme.as_str())
        },
        other => other,
    };
    match parsed {
        Ok(u) => match &u.domain {
            Some(d) => {
                if is_shortened(d.as_str()) {
                    proof {
                        lemma_known_within(d@, u.text@);
                    }
                    Some(u.text)
                } else {
                    None
                }
            },
            None => None,
        },
        Err(_) => None,
    }
}

/// The segments that are not empty, in order.
pub open spec fn drop_empty(s: Seq<Seq<char>>) -> Seq<Seq<char>>
    decreases s.len(),
{
    if s.len() == 0 {
        s
    } else if s[0].len() == 0 {
        drop_empty(s.skip(1))
    } else {
        seq![s[0]] + drop_empty(s.skip(1))
    }
}

/// A character's code with ASCII upper case folded to lower case.
pub open spec fn fold_ascii(c: char) -> u32 {
    if 'A' <= c && c <= 'Z' {
        (c as u32 + 32) as u32
    } else {
        c as u32
    }
}

/// `a` and `b` are equal once ASCII letters are lower-cased.
pub open spec fn same_ignoring_ascii_case(a: Seq<char>, b: Seq<char>) -> bool {
    a.len() == b.len() && forall|i: int| 0 <= i < a.len() ==> fold_ascii(a[i]) == fold_ascii(b[i])
}

/// The first position of `x` in `s`.
pub open spec fn position_from(s: Seq<Seq<char>>, x: Seq<char>, k: int) -> Option<int>
    decreases s.len() - k,
{
    if k < 0 || k >= s.len() {
        None
    } else if s[k] == x {
        Some(k)
    } else {
        position_from(s, x, k + 1)
    }
}

/// The host of the service whose landing pages carry the code after a marker segment.
pub open spec fn is_landing_host(h: Seq<char>) -> bool {
    same_ignoring_ascii_case(h, "encurtador.dev"@) || same_ignoring_ascii_case(
        h,
        "www.encurtador.dev"@,
    )
}

/// The code of a parsed link: on the landing host, the segment right after
/// the marker segment; on a registered service (`known`), the last segment.
/// Empty segments are skipped.
pub open spec fn slug_from(p: UrlParts, known: bool) -> Option<Seq<char>> {
    let segs = match p.segments {
        Some(s) => drop_empty(s),
        None => Seq::empty(),
    };
    match p.host {
        None => None,
        Some(h) => if segs.len() == 0 {
            None
        } else if is_landing_host(h) {
            match position_from(segs, "redirecionamento"@, 0) {
                Some(i) => if i + 1 < segs.len() {
                    Some(segs[i + 1])
                } else {
                    None
                },
                None => None,
            }
        } else if known {
            Some(segs.last())
        } else {
            None
        },
    }
}

/// The code of the link `u`, if it has one.
pub open spec fn slug_of(u: Seq<char>) -> Option<Seq<char>> {
    match url_parse(u) {
        Ok(p) => slug_from(p, is_known(u)),
        Err(_) => None,
    }
}

/// The non-empty strings of `v`, in order.
fn non_empty(v: &Vec<String>) -> (r: Vec<String>)
    ensures
        texts_view(r@) == drop_empty(texts_view(v@)),
{
    let mut out: Vec<String> = Vec::new();
    let mut i: usize = 0;
    assert(texts_view(v@).skip(0) =~= texts_view(v@));
    assert(texts_view(out@) + drop_empty(texts_view(v@)) =~= drop_empty(texts_view(v@)));
    while i < v.len()
        invariant
            i <= v.len(),
            texts_view(out@) + drop_empty(texts_view(v@).skip(i as int)) == drop_empty(
                texts_view(v@),
            ),
        decreases v.len() - i,
    {
        let ghost rest = texts_view(v@).skip(i as int);
        assert(rest.skip(1) =~= texts_view(v@).skip(i + 1));
        assert(rest[0] == v@[i as int]@);
        if !v[i].as_str().is_empty() {
            let ghost before = texts_view(out@);
            out.push(v[i].clone());
            assert(texts_view(out@) =~= before + seq![v@[i as int]@]);
            assert(texts_view(out@) + drop_empty(texts_view(v@).skip(i + 1)) =~= before + (seq![
                rest[0],
            ] + drop_empty(rest.skip(1))));
        }
        i += 1;
    }
    assert(texts_view(v@).skip(i as int) =~= Seq::<Seq<char>>::empty());
    assert(texts_view(out@) + Seq::<Seq<char>>::empty() =~= texts_view(out@));
    out
}

/// Whether `a` equals `b` once ASCII letters are lower-cased.
fn same_ignoring_case(a: &str, b: &str) -> (r: bool)
    ensures
        r == same_ignoring_ascii_case(a@, b@),
{
    let x = chars_of(a);
    let y = chars_of(b);
    if x.len() != y.len() {
        return false;
    }
    let mut i: usize = 0;
    while i < x.len()
        invariant
            x@ == a@,
            y@ == b@,
            x.len() == y.len(),
            i <= x.len(),
            forall|k: int| 0 <= k < i ==> fold_ascii(x@[k]) == fold_ascii(y@[k]),
        decreases x.len() - i,
    {
        let c = x[i];
        let d = y[i];
        let fc: u32 = if 'A' <= c && c <= 'Z' { c as u32 + 32 } else { c as u32 };
        let fd: u32 = if 'A' <= d && d <= 'Z' { d as u32 + 32 } else { d as u32 };
        if fc != fd {
            return false;
        }
        i += 1;
    }
    true
}

/// The first position of `x` in `v`.
fn position_of(v: &Vec<String>, x: &String) -> (r: Option<usize>)
    ensures
        crate::text::index_view(r) == position_from(texts_view(v@), x@, 0),
        r matches Some(i) ==> i < v.len(),
{
    let mut i: usize = 0;
    while i < v.len()
        invariant
            i <= v.len(),
            position_from(texts_view(v@), x@, 0) == position_from(texts_view(v@), x@, i as int),
        decreases v.len() - i,
    {
        if v[i] == *x {
            return Some(i);
        }
        i += 1;
    }
    None
}

/// The code of a short link, to be looked up in the service's API: on the
/// landing host, the segment after `redirecionamento`; on a registered
/// service, the last non-empty path segment.
pub fn extract_slug(u: &str) -> (r: Option<String>)
    ensures
        text_view(r) == slug_of(u@),
{
    let parsed = match parse_url(u) {
        Ok(p) => p,
        Err(_) => return None,
    };
    let host = match &parsed.host {
        Some(h) => h,
        None => return None,
    };
    let segs = match &parsed.segments {
        Some(s) => non_empty(s),
        None => Vec::new(),
    };
    proof {
        if parsed.segments is None {
            assert(texts_view(segs@) =~= Seq::<Seq<char>>::empty());
        }
    }
    if segs.len() == 0 {
        return None;
    }
    if same_ignoring_case(host.as_str(), "encurtador.dev") || same_ignoring_case(
        host.as_str(),
        "www.encurtador.dev",
    ) {
        let marker = "redirecionamento".to_owned();
        return match position_of(&segs, &marker) {
            Some(i) => if i + 1 < segs.len() {
                Some(segs[i + 1].clone())
            } else {
                None
            },
            None => None,
        };
    }
    if is_shortened(u) {
        Some(segs[segs.len() - 1].clone())
    } else {
        None
    }
}

} // verus!

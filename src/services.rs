//! The registry of known shortening services: each domain with the
//! mechanism its links redirect by.
use vstd::prelude::*;

use crate::text::{chars_of, contains, holds, index_view, occurs_at};

verus! {

/// How a service's links reach their destination, and so how they are resolved.
#[derive(Clone, Copy, Debug, PartialEq, Eq, Structural)]
pub enum Strategy {
    /// Follow the HTTP redirects, stopping where the host changes.
    Generic,
    /// As `Generic`, announcing a command-line tool as the user agent.
    ToolRedirect,
    /// Follow every redirect, with the headers of a browser.
    BrowserRedirect,
    /// Read the target of a meta refresh from a page that is not a 200.
    MetaRefresh,
    /// Read the target of a script or link idiom from the page.
    ScriptRedirect,
    /// Read the `Location` header of a HEAD response.
    HeaderLocation,
    /// Decode the obfuscated variable that the page embeds.
    ObfuscatedPayload,
    /// Read the click target that a page that is not a 200 embeds.
    ClickUrl,
    /// Follow the redirects; if still on the service, read its warning page.
    Interstitial,
    /// Follow the redirects; if nothing moved, search the page for a link.
    HtmlFallback,
    /// Follow the redirects, then ask the service's JSON API for the code.
    ApiLookup,
    /// Follow the redirects; if nothing moved, ask an external tool.
    ProcessFallback,
}

/// The number of registered services.
pub const SERVICE_COUNT: usize = 51;

/// The registered domains, in priority order.
pub open spec fn registry() -> Seq<Seq<char>> {
    seq![
        "bit.ly"@,
        "bit.do"@,
        "buff.ly"@,
        "b.link"@,
        "chollo.to"@,
        "cutt.ly"@,
        "fa.by"@,
        "flip.it"@,
        "git.io"@,
        "goo.gl"@,
        "gns.io"@,
        "is.gd"@,
        "iz4.short.gy"@,
        "ldn.im"@,
        "nmc.sg"@,
        "ow.ly"@,
        "rebrand.ly"@,
        "rotf.lol"@,
        "sh.st"@,
        "smu.sg"@,
        "snipr.com"@,
        "snipurl.com"@,
        "snurl.com"@,
        "split.to"@,
        "t.co"@,
        "tiny.cc"@,
        "tinyurl.com"@,
        "tiny.one"@,
        "tny.sh"@,
        "tr.im"@,
        "zpr.io"@,
        "adf.ly"@,
        "atominik.com"@,
        "fumacrom.com"@,
        "intamema.com"@,
        "j.gs"@,
        "q.gs"@,
        "ity.im"@,
        "nowlinks.net"@,
        "rlu.ru"@,
        "u.to"@,
        "vzturl.com"@,
        "cutt.us"@,
        "soo.gd"@,
        "adfoc.us"@,
        "shorturl.at"@,
        "2cm.es"@,
        "lnkd.in"@,
        "surl.li"@,
        "l1nq.com"@,
        "urlshort.dev"@
    ]
}

/// The strategy of each registered domain, by position.
pub open spec fn strategy_table() -> Seq<Strategy> {
    seq![
        Strategy::Generic,
        Strategy::Generic,
        Strategy::Generic,
        Strategy::Generic,
        Strategy::Generic,
        Strategy::Generic,
        Strategy::Generic,
        Strategy::Generic,
        Strategy::Generic,
        Strategy::ToolRedirect,
        Strategy::ScriptRedirect,
        Strategy::Generic,
        Strategy::Generic,
        Strategy::ScriptRedirect,
        Strategy::Generic,
        Strategy::Generic,
        Strategy::Generic,
        Strategy::Generic,
        Strategy::Generic,
        Strategy::Generic,
        Strategy::Generic,
        Strategy::Generic,
        Strategy::Generic,
        Strategy::Generic,
        Strategy::ToolRedirect,
        Strategy::Generic,
        Strategy::ScriptRedirect,
        Strategy::Generic,
        Strategy::Generic,
        Strategy::ScriptRedirect,
        Strategy::Generic,
        Strategy::ObfuscatedPayload,
        Strategy::ObfuscatedPayload,
        Strategy::ObfuscatedPayload,
        Strategy::ObfuscatedPayload,
        Strategy::ObfuscatedPayload,
        Strategy::ObfuscatedPayload,
        Strategy::ScriptRedirect,
        Strategy::ScriptRedirect,
        Strategy::ScriptRedirect,
        Strategy::ScriptRedirect,
        Strategy::ScriptRedirect,
        Strategy::MetaRefresh,
        Strategy::MetaRefresh,
        Strategy::ClickUrl,
        Strategy::HeaderLocation,
        Strategy::BrowserRedirect,
        Strategy::Interstitial,
        Strategy::HtmlFallback,
        Strategy::ApiLookup,
        Strategy::ApiLookup
    ]
}

/// The URL holds some registered domain as a substring.
pub open spec fn is_known(url: Seq<char>) -> bool {
    exists|i: int| 0 <= i < SERVICE_COUNT && contains(url, #[trigger] registry()[i])
}

/// The position of the first registered domain, from `k` on, that the URL holds.
pub open spec fn first_service_from(url: Seq<char>, k: int) -> Option<int>
    decreases SERVICE_COUNT - k,
{
    if k < 0 || k >= SERVICE_COUNT {
        None
    } else if contains(url, registry()[k]) {
        Some(k)
    } else {
        first_service_from(url, k + 1)
    }
}

/// The position of the first registered domain that the URL holds.
pub open spec fn service_index(url: Seq<char>) -> Option<int> {
    first_service_from(url, 0)
}

/// The domain and strategy registered at position `i`.
pub fn service_entry(i: usize) -> (r: (&'static str, Strategy))
    requires
        i < SERVICE_COUNT,
    ensures
        r.0@ == registry()[i as int],
        r.1 == strategy_table()[i as int],
{
    match i {
        0 => ("bit.ly", Strategy::Generic),
        1 => ("bit.do", Strategy::Generic),
        2 => ("buff.ly", Strategy::Generic),
        3 => ("b.link", Strategy::Generic),
        4 => ("chollo.to", Strategy::Generic),
        5 => ("cutt.ly", Strategy::Generic),
        6 => ("fa.by", Strategy::Generic),
        7 => ("flip.it", Strategy::Generic),
        8 => ("git.io", Strategy::Generic),
        9 => ("goo.gl", Strategy::ToolRedirect),
        10 => ("gns.io", Strategy::ScriptRedirect),
        11 => ("is.gd", Strategy::Generic),
        12 => ("iz4.short.gy", Strategy::Generic),
        13 => ("ldn.im", Strategy::ScriptRedirect),
        14 => ("nmc.sg", Strategy::Generic),
        15 => ("ow.ly", Strategy::Generic),
        16 => ("rebrand.ly", Strategy::Generic),
        17 => ("rotf.lol", Strategy::Generic),
        18 => ("sh.st", Strategy::Generic),
        19 => ("smu.sg", Strategy::Generic),
        20 => ("snipr.com", Strategy::Generic),
        21 => ("snipurl.com", Strategy::Generic),
        22 => ("snurl.com", Strategy::Generic),
        23 => ("split.to", Strategy::Generic),
        24 => ("t.co", Strategy::ToolRedirect),
        25 => ("tiny.cc", Strategy::Generic),
        26 => ("tinyurl.com", Strategy::ScriptRedirect),
        27 => ("tiny.one", Strategy::Generic),
        28 => ("tny.sh", Strategy::Generic),
        29 => ("tr.im", Strategy::ScriptRedirect),
        30 => ("zpr.io", Strategy::Generic),
        31 => ("adf.ly", Strategy::ObfuscatedPayload),
        32 => ("atominik.com", Strategy::ObfuscatedPayload),
        33 => ("fumacrom.com", Strategy::ObfuscatedPayload),
        34 => ("intamema.com", Strategy::ObfuscatedPayload),
        35 => ("j.gs", Strategy::ObfuscatedPayload),
        36 => ("q.gs", Strategy::ObfuscatedPayload),
        37 => ("ity.im", Strategy::ScriptRedirect),
        38 => ("nowlinks.net", Strategy::ScriptRedirect),
        39 => ("rlu.ru", Strategy::ScriptRedirect),
        40 => ("u.to", Strategy::ScriptRedirect),
        41 => ("vzturl.com", Strategy::ScriptRedirect),
        42 => ("cutt.us", Strategy::MetaRefresh),
        43 => ("soo.gd", Strategy::MetaRefresh),
        44 => ("adfoc.us", Strategy::ClickUrl),
        45 => ("shorturl.at", Strategy::HeaderLocation),
        46 => ("2cm.es", Strategy::BrowserRedirect),
        47 => ("lnkd.in", Strategy::Interstitial),
        48 => ("surl.li", Strategy::HtmlFallback),
        49 => ("l1nq.com", Strategy::ApiLookup),
        _ => ("urlshort.dev", Strategy::ApiLookup),
    }
}

/// The position of the first registered domain that `url` holds.
pub fn which_service_index(url: &str) -> (r: Option<usize>)
    ensures
        index_view(r) == service_index(url@),
{
    let u = chars_of(url);
    let mut i: usize = 0;
    while i < SERVICE_COUNT
        invariant
            service_index(url@) == first_service_from(url@, i as int),
            u@ == url@,
        decreases SERVICE_COUNT - i,
    {
        let (domain, _) = service_entry(i);
        if holds(&u, domain) {
            return Some(i);
        }
        i += 1;
    }
    None
}

/// The first registered domain that `url` holds.
pub fn which_service(url: &str) -> (r: Option<&'static str>)
    ensures
        match r {
            Some(d) => exists|i: int| service_index(url@) == Some(i) && d@ == registry()[i],
            None => service_index(url@) is None,
        },
{
    let found = which_service_index(url);
    proof {
        lemma_service_index_known(url@);
    }
    match found {
        Some(i) => Some(service_entry(i).0),
        None => None,
    }
}

/// A registered domain is found exactly when the URL holds one.
pub proof fn lemma_service_index_known(url: Seq<char>)
    ensures
        service_index(url) is Some <==> is_known(url),
        service_index(url) matches Some(i) ==> 0 <= i < SERVICE_COUNT && contains(url, registry()[i]),
{
    lemma_first_service_from(url, 0);
}

proof fn lemma_first_service_from(url: Seq<char>, k: int)
    requires
        0 <= k,
    ensures
        match first_service_from(url, k) {
            Some(i) => k <= i < SERVICE_COUNT && contains(url, registry()[i]),
            None => forall|j: int| k <= j < SERVICE_COUNT ==> !contains(url, #[trigger] registry()[j]),
        },
        (exists|i: int| 0 <= i < k && contains(url, #[trigger] registry()[i])) || first_service_from(url, k) is Some
            || !is_known(url),
    decreases SERVICE_COUNT - k,
{
    if k < SERVICE_COUNT && !contains(url, registry()[k]) {
        lemma_first_service_from(url, k + 1);
        if exists|i: int| 0 <= i < k + 1 && contains(url, #[trigger] registry()[i]) {
            let i = choose|i: int| 0 <= i < k + 1 && contains(url, #[trigger] registry()[i]);
            assert(i != k);
        }
    }
}

/// Whether `url` is a short link: whether it holds the domain of a known
/// shortening service anywhere.
pub fn is_shortened(url: &str) -> (r: bool)
    ensures
        r == is_known(url@),
{
    let found = which_service_index(url);
    proof {
        lemma_service_index_known(url@);
    }
    found.is_some()
}

/// A text that holds a recognised text is recognised.
pub proof fn lemma_known_within(inner: Seq<char>, outer: Seq<char>)
    requires
        is_known(inner),
        contains(outer, inner),
    ensures
        is_known(outer),
{
    let i = choose|i: int| 0 <= i < SERVICE_COUNT && contains(inner, #[trigger] registry()[i]);
    crate::text::lemma_contains_within(outer, inner, registry()[i]);
}

/// Every registered domain is recognised wherever it stands in a URL: in
/// particular in `https://` + domain + `/anything`.
pub proof fn lemma_registered_domain_known(i: int, before: Seq<char>, rest: Seq<char>)
    requires
        0 <= i < SERVICE_COUNT,
    ensures
        is_known(before + registry()[i] + rest),
{
    let d = registry()[i];
    let url = before + d + rest;
    assert(url.subrange(before.len() as int, (before.len() + d.len()) as int) =~= d);
    assert(occurs_at(url, d, before.len() as int));
    assert(contains(url, registry()[i]));
}

} // verus!

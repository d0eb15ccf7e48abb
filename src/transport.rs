//! The transport policy that each request is made under: user agent,
//! headers, which redirects to follow, and when a page body is wanted.
use vstd::prelude::*;

verus! {

/// The user agent that a request announces.
#[derive(Clone, Copy, Debug, PartialEq, Eq, Structural)]
pub enum Agent {
    /// A browser's.
    Browser,
    /// A command-line tool's, for services that show browsers an interstitial page.
    Tool,
}

/// Which redirects a request follows.
#[derive(Clone, Copy, Debug, PartialEq, Eq, Structural)]
pub enum Redirects {
    /// Follow those whose target is on the origin's host (see `next_hop`).
    SameHost,
    /// Follow them all, as the HTTP client does by default.
    All,
    /// Follow none.
    Never,
}

/// The request headers besides the user agent.
#[derive(Clone, Copy, Debug, PartialEq, Eq, Structural)]
pub enum Headers {
    /// None.
    Plain,
    /// Prefer HTML, in English, uncached.
    Html,
    /// Those a browser sends with a page request.
    Browser,
    /// Prefer JSON.
    Json,
}

/// Which status codes a page fetch reads the body on.
#[derive(Clone, Copy, Debug, PartialEq, Eq, Structural)]
pub enum Fetch {
    /// Every status.
    Any,
    /// Only 200.
    IfOk,
    /// Every status but 200: landing pages that redirect by content often
    /// answer with another one.
    IfNotOk,
}

/// What the redirect policy does at a redirect.
#[derive(Clone, Copy, Debug, PartialEq, Eq, Structural)]
pub enum Hop {
    Follow,
    Stop,
}

/// The user agent string of each preset.
pub fn agent_string(a: Agent) -> (r: &'static str)
    ensures
        a == Agent::Tool ==> r@ == "curl/7.72.0"@,
        a == Agent::Browser ==> r@
            == "Mozilla/5.0 (X11; Linux x86_64; rv:128.0) Gecko/20100101 Firefox/128.0"@,
{
    match a {
        Agent::Browser => "Mozilla/5.0 (X11; Linux x86_64; rv:128.0) Gecko/20100101 Firefox/128.0",
        Agent::Tool => "curl/7.72.0",
    }
}

/// A fetch under `rule` reads the body of a response with this status.
pub open spec fn body_wanted(rule: Fetch, status: u16) -> bool {
    match rule {
        Fetch::Any => true,
        Fetch::IfOk => status == 200,
        Fetch::IfNotOk => status != 200,
    }
}

/// Whether a fetch under `rule` reads the body of a response with `status`.
pub fn wants_body(rule: Fetch, status: u16) -> (r: bool)
    ensures
        r == body_wanted(rule, status),
{
    match rule {
        Fetch::Any => true,
        Fetch::IfOk => status == 200,
        Fetch::IfNotOk => status != 200,
    }
}

/// The same-host policy at a redirect, given the hosts of the URLs requested
/// so far (the origin first) and the host of the redirect's target: follow
/// exactly when the target is on the origin's host.
pub open spec fn hop_decision(previous: Seq<Option<Seq<char>>>, target: Option<Seq<char>>) -> Hop {
    if previous[0] == target {
        Hop::Follow
    } else {
        Hop::Stop
    }
}

pub open spec fn hosts_view(previous: Seq<Option<String>>) -> Seq<Option<Seq<char>>> {
    previous.map_values(|h: Option<String>| crate::text::text_view(h))
}

fn same_host(a: &Option<String>, b: &Option<String>) -> (r: bool)
    ensures
        r == (crate::text::text_view(*a) == crate::text::text_view(*b)),
{
    match (a, b) {
        (Some(x), Some(y)) => *x == *y,
        (None, None) => true,
        _ => false,
    }
}

/// What the same-host policy does at a redirect, given the hosts of the URLs
/// requested so far (the origin first) and the host of the redirect's
/// target: it follows only a redirect that stays on the origin's host, so
/// the redirect response that would leave it is the one returned.
pub fn next_hop(previous: &Vec<Option<String>>, target: &Option<String>) -> (r: Hop)
    requires
        previous.len() > 0,
    ensures
        r == hop_decision(hosts_view(previous@), crate::text::text_view(*target)),
        r == (if crate::text::text_view(previous@[0]) == crate::text::text_view(*target) {
            Hop::Follow
        } else {
            Hop::Stop
        }),
{
    if same_host(&previous[0], target) {
        Hop::Follow
    } else {
        Hop::Stop
    }
}

/// No host but the origin's is ever requested under the same-host policy.
/// Take the hosts of a redirect chain, hop 0 the origin. If hop `k` was
/// requested, every redirect before it having been followed, then hops `0`
/// to `k` are all on the origin's host; and a redirect out of hop `k` to
/// another host is not followed. So on a chain origin, A, A, B with A on the
/// origin's host, the chain stops at the last A and B is never requested.
pub proof fn lemma_stops_at_host_change(hosts: Seq<Option<Seq<char>>>, k: int)
    requires
        0 <= k < hosts.len(),
        forall|j: int|
            0 <= j < k ==> hop_decision(#[trigger] hosts.take(j + 1), hosts[j + 1]) == Hop::Follow,
    ensures
        forall|j: int| 0 <= j <= k ==> #[trigger] hosts[j] == hosts[0],
        k + 1 < hosts.len() && hosts[k + 1] != hosts[0] ==> hop_decision(
            hosts.take(k + 1),
            hosts[k + 1],
        ) == Hop::Stop,
{
    assert forall|j: int| 0 <= j <= k implies #[trigger] hosts[j] == hosts[0] by {
        if j > 0 {
            let i = j - 1;
            let p = hosts.take(i + 1);
            assert(hop_decision(p, hosts[i + 1]) == Hop::Follow);
            assert(p[0] == hosts[0]);
        }
    }
    let p = hosts.take(k + 1);
    assert(p[0] == hosts[0]);
}

} // verus!

//! Regular-expression extraction: the first participating capture group of
//! the first match, or the whole match when the pattern has no groups.
use vstd::prelude::*;

use crate::text::text_view;

verus! {

/// The capture groups of the first match of `pattern` in `text`, group 0
/// (the whole match) first; nothing when the pattern does not compile or
/// does not match.
pub uninterp spec fn regex_groups(pattern: Seq<char>, text: Seq<char>) -> Option<
    Seq<Option<Seq<char>>>,
>;

pub open spec fn groups_view(g: Seq<Option<String>>) -> Seq<Option<Seq<char>>> {
    g.map_values(|o: Option<String>| text_view(o))
}

/// Relies on `regex::Regex::new` and `Regex::captures`, with each group of
/// the match read through `Captures::iter` and `Match::as_str`.
#[verifier::external_body]
fn capture_groups(pattern: &str, text: &str) -> (r: Option<Vec<Option<String>>>)
    ensures
        match r {
            Some(g) => regex_groups(pattern@, text@) == Some(groups_view(g@)),
            None => regex_groups(pattern@, text@) is None,
        },
{
    regex::Regex::new(pattern).ok().and_then(
        |re| re.captures(text).map(|c| c.iter().map(|m| m.map(|m| m.as_str().to_string())).collect()),
    )
}

/// The first group from position `k` on that took part in the match.
pub open spec fn first_group_from(g: Seq<Option<Seq<char>>>, k: int) -> Option<Seq<char>>
    decreases g.len() - k,
{
    if k < 0 || k >= g.len() {
        None
    } else if g[k] is Some {
        g[k]
    } else {
        first_group_from(g, k + 1)
    }
}

/// What a match yields: its first participating capture group, or the
/// whole match when the pattern has no capture group.
pub open spec fn chosen_group(g: Seq<Option<Seq<char>>>) -> Option<Seq<char>> {
    if g.len() == 1 {
        g[0]
    } else {
        first_group_from(g, 1)
    }
}

/// What `pattern` extracts from `text`.
pub open spec fn extraction(pattern: Seq<char>, text: Seq<char>) -> Option<Seq<char>> {
    match regex_groups(pattern, text) {
        Some(g) => chosen_group(g),
        None => None,
    }
}

/// Chooses what a match yields from its groups (group 0 first): the first
/// capture group that took part, or the whole match when there is no
/// capture group.
pub fn pick_group(g: &Vec<Option<String>>) -> (r: Option<String>)
    ensures
        text_view(r) == chosen_group(groups_view(g@)),
{
    if g.len() == 0 {
        return None;
    }
    if g.len() == 1 {
        return g[0].clone();
    }
    let mut k: usize = 1;
    while k < g.len()
        invariant
            1 <= k <= g.len(),
            g.len() != 1,
            chosen_group(groups_view(g@)) == first_group_from(groups_view(g@), k as int),
        decreases g.len() - k,
    {
        if g[k].is_some() {
            return g[k].clone();
        }
        k += 1;
    }
    None
}

/// What `pattern` extracts from `text`: the first participating capture
/// group of its first match, or the whole match when it has no group.
pub fn extract(text: &str, pattern: &str) -> (r: Option<String>)
    ensures
        text_view(r) == extraction(pattern@, text@),
{
    match capture_groups(pattern, text) {
        Some(g) => pick_group(&g),
        None => None,
    }
}

} // verus!

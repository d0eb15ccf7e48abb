//! The resolution engine as a state machine. `begin` validates a URL, picks
//! its service's strategy and names the first network action; the caller
//! performs each action and hands the event back to `resume`, which names
//! the next action or finishes with the destination or an error. Every
//! decision is here; the caller only does the I/O.
use vstd::prelude::*;

use crate::address::{extract_slug, slug_of, validate, validated};
use crate::error::Error;
use crate::pages::{
    click_target, did_not_move, fallback_target, found, on_service,
    on_service_site, payload_target, script_target, unmoved, warning_target,
    click_link, fallback_link, meta_refresh_link, payload_link, script_link, warning_link,
};
use crate::replies::{
    api_address, api_outcome, api_target, api_url, field_view, location_target, tool_outcome,
    tool_target, yields,
};
use crate::services::{service_entry, service_index, strategy_table, which_service_index, Strategy};
use crate::text::text_view;
use crate::transport::{body_wanted, wants_body, Agent, Fetch, Headers, Redirects};

verus! {

/// What a network action does.
#[derive(Clone, Copy, Debug, PartialEq, Eq, Structural)]
pub enum Kind {
    /// Send a GET and report the URL it ended at (`Event::Reached`).
    Follow,
    /// GET a page and report its status and, when `wants_body`, its body (`Event::Page`).
    Fetch,
    /// Send a HEAD and report its `Location` header (`Event::Located`).
    Head,
    /// GET a JSON API answer (`Event::Answer`).
    Ask,
    /// Run the external redirect follower (`Event::ToolOutput` or `Event::ToolMissing`).
    RunTool,
}

/// How a network action is made.
#[derive(Clone, Copy, Debug, PartialEq, Eq, Structural)]
pub struct Shape {
    pub kind: Kind,
    pub agent: Agent,
    pub redirects: Redirects,
    pub headers: Headers,
    /// For `Kind::Fetch`: on which statuses the body is read.
    pub rule: Fetch,
}

/// A network action for the caller to perform.
pub struct Action {
    pub shape: Shape,
    pub url: String,
}

/// What a performed action gave.
pub enum Event {
    /// Where a `Follow` request ended.
    Reached { url: String },
    /// A fetched page: its status, and its body when it was read.
    Page { status: u16, body: Option<String> },
    /// The `Location` header of a HEAD response: absent, text, or the error decoding it.
    Located { location: Option<Result<String, Error>> },
    /// An API answer: its status, its `Location` header as text if any, and
    /// the `url` field of its JSON body or the error reading it.
    Answer { status: u16, location: Option<String>, url_field: Result<Option<String>, Error> },
    /// What the redirect follower printed.
    ToolOutput { text: String },
    /// The redirect follower could not be launched because it is not installed.
    ToolMissing,
    /// The request, or launching the tool, failed.
    Failed { error: Error },
}

/// Where a resolution stands.
pub enum Stage {
    /// The first action is out.
    First,
    /// The follow-up action is out; `fallback` is what to answer if it finds nothing.
    Second { fallback: Option<String> },
}

/// One resolution in progress.
pub struct Session {
    pub strategy: Strategy,
    /// The validated URL being resolved.
    pub origin: String,
    pub stage: Stage,
}

/// What to do next.
pub enum Step {
    /// Perform `action`, then resume `session` with its event.
    Perform { session: Session, action: Action },
    /// The resolution is over.
    Finish { outcome: Result<String, Error> },
}

/// The first action of each strategy.
pub open spec fn opening(s: Strategy) -> Shape {
    match s {
        Strategy::Generic | Strategy::Interstitial | Strategy::HtmlFallback => Shape {
            kind: Kind::Follow,
            agent: Agent::Browser,
            redirects: Redirects::SameHost,
            headers: Headers::Plain,
            rule: Fetch::Any,
        },
        Strategy::ToolRedirect | Strategy::ProcessFallback => Shape {
            kind: Kind::Follow,
            agent: Agent::Tool,
            redirects: Redirects::SameHost,
            headers: Headers::Plain,
            rule: Fetch::Any,
        },
        Strategy::BrowserRedirect => Shape {
            kind: Kind::Follow,
            agent: Agent::Browser,
            redirects: Redirects::All,
            headers: Headers::Browser,
            rule: Fetch::Any,
        },
        Strategy::ApiLookup => Shape {
            kind: Kind::Follow,
            agent: Agent::Browser,
            redirects: Redirects::All,
            headers: Headers::Plain,
            rule: Fetch::Any,
        },
        Strategy::MetaRefresh | Strategy::ClickUrl | Strategy::ObfuscatedPayload => Shape {
            kind: Kind::Fetch,
            agent: Agent::Browser,
            redirects: Redirects::All,
            headers: Headers::Html,
            rule: Fetch::IfNotOk,
        },
        Strategy::ScriptRedirect => Shape {
            kind: Kind::Fetch,
            agent: Agent::Browser,
            redirects: Redirects::All,
            headers: Headers::Plain,
            rule: Fetch::Any,
        },
        Strategy::HeaderLocation => Shape {
            kind: Kind::Head,
            agent: Agent::Browser,
            redirects: Redirects::SameHost,
            headers: Headers::Plain,
            rule: Fetch::Any,
        },
    }
}

/// The follow-up action of each two-stage strategy.
pub open spec fn follow_up(s: Strategy) -> Shape {
    match s {
        Strategy::ApiLookup => Shape {
            kind: Kind::Ask,
            agent: Agent::Browser,
            redirects: Redirects::Never,
            headers: Headers::Json,
            rule: Fetch::Any,
        },
        Strategy::ProcessFallback => Shape {
            kind: Kind::RunTool,
            agent: Agent::Tool,
            redirects: Redirects::All,
            headers: Headers::Plain,
            rule: Fetch::Any,
        },
        _ => Shape {
            kind: Kind::Fetch,
            agent: Agent::Browser,
            redirects: Redirects::All,
            headers: Headers::Html,
            rule: Fetch::Any,
        },
    }
}

fn opening_shape(s: Strategy) -> (r: Shape)
    ensures
        r == opening(s),
{
    match s {
        Strategy::Generic | Strategy::Interstitial | Strategy::HtmlFallback => Shape {
            kind: Kind::Follow,
            agent: Agent::Browser,
            redirects: Redirects::SameHost,
            headers: Headers::Plain,
            rule: Fetch::Any,
        },
        Strategy::ToolRedirect | Strategy::ProcessFallback => Shape {
            kind: Kind::Follow,
            agent: Agent::Tool,
            redirects: Redirects::SameHost,
            headers: Headers::Plain,
            rule: Fetch::Any,
        },
        Strategy::BrowserRedirect => Shape {
            kind: Kind::Follow,
            agent: Agent::Browser,
            redirects: Redirects::All,
            headers: Headers::Browser,
            rule: Fetch::Any,
        },
        Strategy::ApiLookup => Shape {
            kind: Kind::Follow,
            agent: Agent::Browser,
            redirects: Redirects::All,
            headers: Headers::Plain,
            rule: Fetch::Any,
        },
        Strategy::MetaRefresh | Strategy::ClickUrl | Strategy::ObfuscatedPayload => Shape {
            kind: Kind::Fetch,
            agent: Agent::Browser,
            redirects: Redirects::All,
            headers: Headers::Html,
            rule: Fetch::IfNotOk,
        },
        Strategy::ScriptRedirect => Shape {
            kind: Kind::Fetch,
            agent: Agent::Browser,
            redirects: Redirects::All,
            headers: Headers::Plain,
            rule: Fetch::Any,
        },
        Strategy::HeaderLocation => Shape {
            kind: Kind::Head,
            agent: Agent::Browser,
            redirects: Redirects::SameHost,
            headers: Headers::Plain,
            rule: Fetch::Any,
        },
    }
}

fn follow_up_shape(s: Strategy) -> (r: Shape)
    ensures
        r == follow_up(s),
{
    match s {
        Strategy::ApiLookup => Shape {
            kind: Kind::Ask,
            agent: Agent::Browser,
            redirects: Redirects::Never,
            headers: Headers::Json,
            rule: Fetch::Any,
        },
        Strategy::ProcessFallback => Shape {
            kind: Kind::RunTool,
            agent: Agent::Tool,
            redirects: Redirects::All,
            headers: Headers::Plain,
            rule: Fetch::Any,
        },
        _ => Shape {
            kind: Kind::Fetch,
            agent: Agent::Browser,
            redirects: Redirects::All,
            headers: Headers::Html,
            rule: Fetch::Any,
        },
    }
}

/// What a content-based strategy finds on a page.
pub open spec fn page_link(s: Strategy, page: Seq<char>) -> Option<Seq<char>> {
    match s {
        Strategy::MetaRefresh => meta_refresh_link(page),
        Strategy::ScriptRedirect => script_link(page),
        Strategy::ObfuscatedPayload => payload_link(page),
        Strategy::ClickUrl => click_link(page),
        Strategy::Interstitial => warning_link(page),
        Strategy::HtmlFallback => fallback_link(page),
        _ => None,
    }
}

/// The outcome of a redirect-following request.
pub open spec fn reached_outcome(e: Event) -> Result<Seq<char>, Error> {
    match e {
        Event::Reached { url } => Ok(url@),
        Event::Failed { error } => Err(error),
        _ => Err(Error::Unknown),
    }
}

/// The outcome of a page fetch under `rule` for strategy `s`: nothing found
/// when the status is not one the rule reads.
pub open spec fn page_outcome(s: Strategy, rule: Fetch, e: Event) -> Result<Seq<char>, Error> {
    match e {
        Event::Page { status, body } => if !body_wanted(rule, status) {
            Err(Error::NoString)
        } else {
            match body {
                Some(b) => found(page_link(s, b@)),
                None => Err(Error::Unknown),
            }
        },
        Event::Failed { error } => Err(error),
        _ => Err(Error::Unknown),
    }
}

/// The outcome of a HEAD request.
pub open spec fn located_outcome(e: Event) -> Result<Seq<char>, Error> {
    match e {
        Event::Located { location } => match location {
            None => Err(Error::NoString),
            Some(Ok(x)) => Ok(x@),
            Some(Err(err)) => Err(err),
        },
        Event::Failed { error } => Err(error),
        _ => Err(Error::Unknown),
    }
}

/// The outcome of an API request.
pub open spec fn answer_outcome(e: Event) -> Result<Seq<char>, Error> {
    match e {
        Event::Answer { status, location, url_field } => api_outcome(
            status,
            text_view(location),
            field_view(url_field),
        ),
        Event::Failed { error } => Err(error),
        _ => Err(Error::Unknown),
    }
}

/// The outcome of running the redirect follower on `origin`.
pub open spec fn tool_event_outcome(origin: Seq<char>, e: Event) -> Result<Seq<char>, Error> {
    match e {
        Event::ToolOutput { text } => tool_outcome(origin, text@),
        Event::ToolMissing => Err(Error::ToolUnavailable),
        Event::Failed { error } => Err(error),
        _ => Err(Error::Unknown),
    }
}

/// An outcome, with `fallback` answered in place of a failure when there is one.
pub open spec fn or_fallback(v: Result<Seq<char>, Error>, fallback: Option<Seq<char>>) -> Result<
    Seq<char>,
    Error,
> {
    match v {
        Ok(u) => Ok(u),
        Err(e) => match fallback {
            Some(x) => Ok(x),
            None => Err(e),
        },
    }
}

/// The code to ask the API for: that of where the redirects ended, else that of the origin.
pub open spec fn code_for(reached: Seq<char>, origin: Seq<char>) -> Option<Seq<char>> {
    match slug_of(reached) {
        Some(c) => Some(c),
        None => slug_of(origin),
    }
}

pub open spec fn action_is(a: Action, shape: Shape, url: Seq<char>) -> bool {
    a.shape == shape && a.url@ == url
}

/// The step finishes with outcome `v`.
pub open spec fn finishes(r: Step, v: Result<Seq<char>, Error>) -> bool {
    r matches Step::Finish { outcome } && yields(outcome, v)
}

/// The step performs the follow-up action of `s` on `url`, with `fallback` kept.
pub open spec fn continues(
    r: Step,
    s: Strategy,
    origin: Seq<char>,
    fallback: Option<Seq<char>>,
    url: Seq<char>,
) -> bool {
    match r {
        Step::Perform { session, action } => session.strategy == s && session.origin@ == origin
            && (match session.stage {
            Stage::Second { fallback: f } => text_view(f) == fallback,
            Stage::First => false,
        }) && action_is(action, follow_up(s), url),
        Step::Finish { .. } => false,
    }
}

/// What the first event of a resolution of `origin` by `s` leads to.
pub open spec fn after_first(s: Strategy, origin: Seq<char>, e: Event, r: Step) -> bool {
    match s {
        Strategy::Generic | Strategy::ToolRedirect | Strategy::BrowserRedirect => finishes(
            r,
            reached_outcome(e),
        ),
        Strategy::MetaRefresh | Strategy::ScriptRedirect | Strategy::ObfuscatedPayload
        | Strategy::ClickUrl => finishes(r, page_outcome(s, opening(s).rule, e)),
        Strategy::HeaderLocation => finishes(r, located_outcome(e)),
        Strategy::Interstitial => match e {
            Event::Reached { url } => if on_service_site(url@) {
                continues(r, s, origin, Some(url@), origin)
            } else {
                finishes(r, Ok(url@))
            },
            Event::Failed { .. } => continues(r, s, origin, None, origin),
            _ => finishes(r, Err(Error::Unknown)),
        },
        Strategy::HtmlFallback => match e {
            Event::Reached { url } => if unmoved(origin, url@) {
                continues(r, s, origin, Some(url@), origin)
            } else {
                finishes(r, Ok(url@))
            },
            Event::Failed { .. } => continues(r, s, origin, None, origin),
            _ => finishes(r, Err(Error::Unknown)),
        },
        Strategy::ProcessFallback => match e {
            Event::Reached { url } => if url@ != origin {
                finishes(r, Ok(url@))
            } else {
                continues(r, s, origin, None, origin)
            },
            Event::Failed { .. } => continues(r, s, origin, None, origin),
            _ => finishes(r, Err(Error::Unknown)),
        },
        Strategy::ApiLookup => match e {
            Event::Reached { url } => match code_for(url@, origin) {
                Some(c) => continues(r, s, origin, None, api_address(c)),
                None => finishes(r, Err(Error::NoString)),
            },
            Event::Failed { error } => finishes(r, Err(error)),
            _ => finishes(r, Err(Error::Unknown)),
        },
    }
}

/// What the follow-up event of a resolution of `origin` by `s` leads to.
pub open spec fn after_second(
    s: Strategy,
    origin: Seq<char>,
    fallback: Option<Seq<char>>,
    e: Event,
    r: Step,
) -> bool {
    match s {
        Strategy::Interstitial | Strategy::HtmlFallback => finishes(
            r,
            or_fallback(page_outcome(s, Fetch::Any, e), fallback),
        ),
        Strategy::ProcessFallback => finishes(r, tool_event_outcome(origin, e)),
        Strategy::ApiLookup => finishes(r, answer_outcome(e)),
        _ => finishes(r, Err(Error::Unknown)),
    }
}

/// The step that `resume` takes from `session` on event `e`.
pub open spec fn resumed(session: Session, e: Event, r: Step) -> bool {
    match session.stage {
        Stage::First => after_first(session.strategy, session.origin@, e, r),
        Stage::Second { fallback } => after_second(
            session.strategy,
            session.origin@,
            text_view(fallback),
            e,
            r,
        ),
    }
}

/// The first action of a resolution of `origin` by `strategy`.
pub fn start(strategy: Strategy, origin: String) -> (r: (Session, Action))
    ensures
        r.0.strategy == strategy,
        r.0.origin@ == origin@,
        r.0.stage is First,
        action_is(r.1, opening(strategy), origin@),
{
    let url = origin.clone();
    (Session { strategy, origin, stage: Stage::First }, Action { shape: opening_shape(strategy), url })
}

/// The session of a validated URL and the strategy its service is resolved by.
pub open spec fn dispatch(url: Seq<char>) -> Option<(Seq<char>, Strategy)> {
    match validated(url) {
        Some(v) => match service_index(v) {
            Some(i) => Some((v, strategy_table()[i])),
            None => None,
        },
        None => None,
    }
}

/// Starts resolving `url`: validates it, picks the strategy registered for
/// the first known domain it holds, and names the first action. A URL of no
/// known service is not recognized, and no action is taken; a URL that
/// validates always gets a session.
pub fn begin(url: &str) -> (r: Result<(Session, Action), Error>)
    ensures
        validated(url@) is Some <==> dispatch(url@) is Some,
        r is Err <==> validated(url@) is None,
        match dispatch(url@) {
            None => r == Err::<(Session, Action), Error>(Error::NotRecognized),
            Some((v, s)) => r matches Ok((session, action)) && session.strategy == s
                && session.origin@ == v && session.stage is First && action_is(
                action,
                opening(s),
                v,
            ),
        },
{
    let v = match validate(url) {
        Some(v) => v,
        None => return Err(Error::NotRecognized),
    };
    proof {
        crate::services::lemma_service_index_known(v@);
    }
    let i = match which_service_index(v.as_str()) {
        Some(i) => i,
        None => return Err(Error::NotRecognized),
    };
    let (_, strategy) = service_entry(i);
    Ok(start(strategy, v))
}

fn finish(outcome: Result<String, Error>) -> (r: Step)
    ensures
        r == (Step::Finish { outcome }),
{
    Step::Finish { outcome }
}

fn follow(s: Strategy, origin: String, fallback: Option<String>, url: String) -> (r: Step)
    ensures
        continues(r, s, origin@, text_view(fallback), url@),
{
    Step::Perform {
        session: Session { strategy: s, origin, stage: Stage::Second { fallback } },
        action: Action { shape: follow_up_shape(s), url },
    }
}

fn reached_step(e: Event) -> (r: Step)
    ensures
        finishes(r, reached_outcome(e)),
{
    match e {
        Event::Reached { url } => finish(Ok(url)),
        Event::Failed { error } => finish(Err(error)),
        _ => finish(Err(Error::Unknown)),
    }
}

/// What strategy `s` finds on `page`.
fn page_target(s: Strategy, page: &str) -> (r: Option<String>)
    ensures
        text_view(r) == page_link(s, page@),
{
    match s {
        Strategy::MetaRefresh => crate::resolvers::meta_refresh::unshort(page),
        Strategy::ScriptRedirect => script_target(page),
        Strategy::ObfuscatedPayload => payload_target(page),
        Strategy::ClickUrl => click_target(page),
        Strategy::Interstitial => warning_target(page),
        Strategy::HtmlFallback => fallback_target(page),
        _ => None,
    }
}

/// The outcome of a page event for strategy `s` under `rule`.
fn page_result(s: Strategy, rule: Fetch, e: Event) -> (r: Result<String, Error>)
    ensures
        yields(r, page_outcome(s, rule, e)),
{
    match e {
        Event::Page { status, body } => {
            if !wants_body(rule, status) {
                return Err(Error::NoString);
            }
            match body {
                Some(b) => match page_target(s, b.as_str()) {
                    Some(u) => Ok(u),
                    None => Err(Error::NoString),
                },
                None => Err(Error::Unknown),
            }
        },
        Event::Failed { error } => Err(error),
        _ => Err(Error::Unknown),
    }
}

fn resume_first(s: Strategy, origin: String, e: Event) -> (r: Step)
    ensures
        after_first(s, origin@, e, r),
{
    match s {
        Strategy::Generic | Strategy::ToolRedirect | Strategy::BrowserRedirect => reached_step(e),
        Strategy::MetaRefresh | Strategy::ScriptRedirect | Strategy::ObfuscatedPayload
        | Strategy::ClickUrl => {
            let rule = opening_shape(s).rule;
            finish(page_result(s, rule, e))
        },
        Strategy::HeaderLocation => match e {
            Event::Located { location } => finish(location_target(location)),
            Event::Failed { error } => finish(Err(error)),
            _ => finish(Err(Error::Unknown)),
        },
        Strategy::Interstitial => match e {
            Event::Reached { url } => {
                if on_service(url.as_str()) {
                    let again = origin.clone();
                    follow(s, origin, Some(url), again)
                } else {
                    finish(Ok(url))
                }
            },
            Event::Failed { .. } => {
                let again = origin.clone();
                follow(s, origin, None, again)
            },
            _ => finish(Err(Error::Unknown)),
        },
        Strategy::HtmlFallback => match e {
            Event::Reached { url } => {
                if did_not_move(origin.as_str(), url.as_str()) {
                    let again = origin.clone();
                    follow(s, origin, Some(url), again)
                } else {
                    finish(Ok(url))
                }
            },
            Event::Failed { .. } => {
                let again = origin.clone();
                follow(s, origin, None, again)
            },
            _ => finish(Err(Error::Unknown)),
        },
        Strategy::ProcessFallback => match e {
            Event::Reached { url } => {
                if url != origin {
                    finish(Ok(url))
                } else {
                    let again = origin.clone();
                    follow(s, origin, None, again)
                }
            },
            Event::Failed { .. } => {
                let again = origin.clone();
                follow(s, origin, None, again)
            },
            _ => finish(Err(Error::Unknown)),
        },
        Strategy::ApiLookup => match e {
            Event::Reached { url } => {
                let code = match extract_slug(url.as_str()) {
                    Some(c) => Some(c),
                    None => extract_slug(origin.as_str()),
                };
                match code {
                    Some(c) => {
                        let ask = api_url(c.as_str());
                        follow(s, origin, None, ask)
                    },
                    None => finish(Err(Error::NoString)),
                }
            },
            Event::Failed { error } => finish(Err(error)),
            _ => finish(Err(Error::Unknown)),
        },
    }
}

fn resume_second(s: Strategy, origin: String, fallback: Option<String>, e: Event) -> (r: Step)
    ensures
        after_second(s, origin@, text_view(fallback), e, r),
{
    match s {
        Strategy::Interstitial | Strategy::HtmlFallback => {
            match page_result(s, Fetch::Any, e) {
                Ok(u) => finish(Ok(u)),
                Err(err) => match fallback {
                    Some(x) => finish(Ok(x)),
                    None => finish(Err(err)),
                },
            }
        },
        Strategy::ProcessFallback => match e {
            Event::ToolOutput { text } => finish(tool_target(origin.as_str(), text.as_str())),
            Event::ToolMissing => finish(Err(Error::ToolUnavailable)),
            Event::Failed { error } => finish(Err(error)),
            _ => finish(Err(Error::Unknown)),
        },
        Strategy::ApiLookup => match e {
            Event::Answer { status, location, url_field } => finish(
                api_target(status, location, url_field),
            ),
            Event::Failed { error } => finish(Err(error)),
            _ => finish(Err(Error::Unknown)),
        },
        _ => finish(Err(Error::Unknown)),
    }
}

/// Takes the event of the session's pending action and says what comes
/// next: the follow-up action, or the outcome.
pub fn resume(session: Session, e: Event) -> (r: Step)
    ensures
        resumed(session, e, r),
{
    match session.stage {
        Stage::First => resume_first(session.strategy, session.origin, e),
        Stage::Second { fallback } => resume_second(
            session.strategy,
            session.origin,
            fallback,
            e,
        ),
    }
}

} // verus!

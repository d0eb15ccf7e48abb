use urlexpand::transport::{Agent, Fetch, Headers, Redirects};
use urlexpand::{begin, is_shortened, resume, start, Error, Event, Kind, Session, Step, Strategy};

fn finished(step: Step) -> Result<String, Error> {
    match step {
        Step::Finish { outcome } => outcome,
        Step::Perform { action, .. } => panic!("unexpected follow-up to {}", action.url),
    }
}

fn page(status: u16, body: &str) -> Event {
    Event::Page { status, body: Some(body.to_string()) }
}

#[test]
fn begin_dispatches_by_service() {
    let (session, action) = begin("bit.ly/3alqLKi").unwrap();
    assert_eq!(session.strategy, Strategy::Generic);
    assert_eq!(session.origin, "https://bit.ly/3alqLKi");
    assert_eq!(action.url, "https://bit.ly/3alqLKi");
    assert_eq!(action.shape.kind, Kind::Follow);
    assert_eq!(action.shape.redirects, Redirects::SameHost);

    let (session, action) = begin("https://soo.gd/abc").unwrap();
    assert_eq!(session.strategy, Strategy::MetaRefresh);
    assert_eq!(action.shape.kind, Kind::Fetch);
    assert_eq!(action.shape.rule, Fetch::IfNotOk);
    assert_eq!(action.shape.headers, Headers::Html);

    let (_, action) = begin("https://shorturl.at/kmrEO").unwrap();
    assert_eq!(action.shape.kind, Kind::Head);

    let (_, action) = begin("https://t.co/abc").unwrap();
    assert_eq!(action.shape.agent, Agent::Tool);
}

#[test]
fn unrecognized_domain_is_refused_without_any_action() {
    let url = "https://my-own-site.test/page";
    assert!(!is_shortened(url));
    assert!(matches!(begin(url), Err(Error::NotRecognized)));
    assert!(matches!(begin("not a url"), Err(Error::NotRecognized)));
}

#[test]
fn generic_redirect_returns_where_it_ended() {
    let (session, _) = begin("https://bit.ly/3alqLKi").unwrap();
    let reached = Event::Reached { url: "https://www.google.com/".to_string() };
    assert_eq!(finished(resume(session, reached)), Ok("https://www.google.com/".to_string()));
}

#[test]
fn transport_failure_is_passed_on() {
    let (session, _) = begin("https://bit.ly/3alqLKi").unwrap();
    let failed = Event::Failed { error: Error::Reqwest("timeout".to_string()) };
    assert_eq!(finished(resume(session, failed)), Err(Error::Reqwest("timeout".to_string())));
}

#[test]
fn unexpected_event_is_an_unknown_error() {
    let (session, _) = begin("https://bit.ly/3alqLKi").unwrap();
    assert_eq!(finished(resume(session, Event::ToolMissing)), Err(Error::Unknown));
}

#[test]
fn meta_refresh_scenario_with_quoted_target() {
    let (session, _) = start(Strategy::MetaRefresh, "https://soo.gd/abc".to_string());
    let body = "<html><meta http-equiv=\"refresh\" URL=\"https://example.org/x\"></html>";
    assert_eq!(finished(resume(session, page(302, body))), Ok("https://example.org/x".to_string()));
}

#[test]
fn meta_refresh_scenario() {
    let (session, _) = start(Strategy::MetaRefresh, "https://soo.gd/abc".to_string());
    let body = "<html><meta http-equiv=\"refresh\" content=\"0; URL=https://example.org/x\"></html>";
    assert_eq!(finished(resume(session, page(301, body))), Ok("https://example.org/x".to_string()));
}

#[test]
fn meta_refresh_on_status_200_finds_nothing() {
    let (session, _) = start(Strategy::MetaRefresh, "https://soo.gd/abc".to_string());
    let body = "<meta content=\"0; URL=https://example.org/x\">";
    assert_eq!(finished(resume(session, page(200, body))), Err(Error::NoString));
}

#[test]
fn page_without_body_is_an_unknown_error() {
    let (session, _) = start(Strategy::MetaRefresh, "https://soo.gd/abc".to_string());
    let event = Event::Page { status: 302, body: None };
    assert_eq!(finished(resume(session, event)), Err(Error::Unknown));
}

#[test]
fn script_redirect_scenario() {
    let (session, _) = start(Strategy::ScriptRedirect, "https://tinyurl.com/abc".to_string());
    let body = "<script>window.location='https://example.org/y';</script>";
    assert_eq!(finished(resume(session, page(200, body))), Ok("https://example.org/y".to_string()));
}

#[test]
fn header_location_scenario() {
    let (session, _) = start(Strategy::HeaderLocation, "https://shorturl.at/abc".to_string());
    let event = Event::Located { location: Some(Ok("https://example.org/z".to_string())) };
    assert_eq!(finished(resume(session, event)), Ok("https://example.org/z".to_string()));
}

#[test]
fn header_that_is_not_text_is_a_header_error() {
    let (session, _) = start(Strategy::HeaderLocation, "https://shorturl.at/abc".to_string());
    let event = Event::Located { location: Some(Err(Error::ReqwestHeader("bytes".to_string()))) };
    assert_eq!(finished(resume(session, event)), Err(Error::ReqwestHeader("bytes".to_string())));
}

#[test]
fn two_stage_api_scenario() {
    let (session, _) = start(Strategy::ApiLookup, "https://l1nq.com/abc".to_string());
    let reached = Event::Reached { url: "https://www.encurtador.dev/redirecionamento/XYZ".to_string() };
    let (session, action) = match resume(session, reached) {
        Step::Perform { session, action } => (session, action),
        Step::Finish { outcome } => panic!("finished early: {:?}", outcome),
    };
    assert_eq!(action.url, "https://dr-api.encurtador.dev/encurtamentos/XYZ");
    assert_eq!(action.shape.kind, Kind::Ask);
    assert_eq!(action.shape.redirects, Redirects::Never);
    let answer = Event::Answer {
        status: 200,
        location: None,
        url_field: Ok(Some("https://final.example/".to_string())),
    };
    assert_eq!(finished(resume(session, answer)), Ok("https://final.example/".to_string()));
}

#[test]
fn two_stage_api_falls_back_to_the_origin_code() {
    let (session, _) = start(Strategy::ApiLookup, "https://l1nq.com/abc".to_string());
    let reached = Event::Reached { url: "https://example.org/".to_string() };
    match resume(session, reached) {
        Step::Perform { action, .. } => {
            assert_eq!(action.url, "https://dr-api.encurtador.dev/encurtamentos/abc")
        }
        Step::Finish { outcome } => panic!("finished early: {:?}", outcome),
    }
}

#[test]
fn interstitial_reads_the_warning_page_when_still_on_the_site() {
    let (session, _) = start(Strategy::Interstitial, "https://lnkd.in/abc".to_string());
    let reached = Event::Reached { url: "https://www.linkedin.com/safety/go".to_string() };
    let (session, action) = match resume(session, reached) {
        Step::Perform { session, action } => (session, action),
        Step::Finish { outcome } => panic!("finished early: {:?}", outcome),
    };
    assert_eq!(action.url, "https://lnkd.in/abc");
    assert_eq!(action.shape.kind, Kind::Fetch);
    let body = "<a data-tracking-control-name=\"external_url_click\" href=\"https://example.org/w\">go</a>";
    assert_eq!(finished(resume(session, page(200, body))), Ok("https://example.org/w".to_string()));
}

#[test]
fn interstitial_falls_back_to_the_redirect_result() {
    let (session, _) = start(Strategy::Interstitial, "https://lnkd.in/abc".to_string());
    let reached = Event::Reached { url: "https://www.linkedin.com/safety/go".to_string() };
    let session = match resume(session, reached) {
        Step::Perform { session, .. } => session,
        Step::Finish { outcome } => panic!("finished early: {:?}", outcome),
    };
    assert_eq!(
        finished(resume(session, page(200, "<p>nothing</p>"))),
        Ok("https://www.linkedin.com/safety/go".to_string())
    );
}

#[test]
fn interstitial_off_the_site_is_done() {
    let (session, _) = start(Strategy::Interstitial, "https://lnkd.in/abc".to_string());
    let reached = Event::Reached { url: "https://example.org/".to_string() };
    assert_eq!(finished(resume(session, reached)), Ok("https://example.org/".to_string()));
}

#[test]
fn html_fallback_after_a_failed_redirect() {
    let (session, _) = start(Strategy::HtmlFallback, "https://surl.li/abc".to_string());
    let failed = Event::Failed { error: Error::Reqwest("refused".to_string()) };
    let session = match resume(session, failed) {
        Step::Perform { session, .. } => session,
        Step::Finish { outcome } => panic!("finished early: {:?}", outcome),
    };
    let again = Event::Failed { error: Error::Reqwest("refused again".to_string()) };
    assert_eq!(finished(resume(session, again)), Err(Error::Reqwest("refused again".to_string())));
}

#[test]
fn html_fallback_reads_the_page_when_nothing_moved() {
    let (session, _) = start(Strategy::HtmlFallback, "https://surl.li/abc".to_string());
    let reached = Event::Reached { url: "https://surl.li/abc".to_string() };
    let session = match resume(session, reached) {
        Step::Perform { session, .. } => session,
        Step::Finish { outcome } => panic!("finished early: {:?}", outcome),
    };
    let body = "<a href=\"https://example.org/d\">Direct link</a> <a href=\"/x?url=https://example.org/q\">";
    assert_eq!(finished(resume(session, page(200, body))), Ok("https://example.org/d".to_string()));
}

#[test]
fn process_fallback_runs_the_tool_when_nothing_moved() {
    let (session, _) = start(Strategy::ProcessFallback, "https://t.co/abc".to_string());
    let reached = Event::Reached { url: "https://t.co/abc".to_string() };
    let (session, action) = match resume(session, reached) {
        Step::Perform { session, action } => (session, action),
        Step::Finish { outcome } => panic!("finished early: {:?}", outcome),
    };
    assert_eq!(action.shape.kind, Kind::RunTool);
    let out = Event::ToolOutput { text: "https://example.org/t\n".to_string() };
    assert_eq!(finished(resume(session, out)), Ok("https://example.org/t".to_string()));
}

#[test]
fn process_fallback_without_the_tool() {
    let (session, _) = start(Strategy::ProcessFallback, "https://t.co/abc".to_string());
    let failed = Event::Failed { error: Error::Reqwest("blocked".to_string()) };
    let session: Session = match resume(session, failed) {
        Step::Perform { session, .. } => session,
        Step::Finish { outcome } => panic!("finished early: {:?}", outcome),
    };
    assert_eq!(finished(resume(session, Event::ToolMissing)), Err(Error::ToolUnavailable));
}

#[test]
fn process_fallback_keeps_a_redirect_that_moved() {
    let (session, _) = start(Strategy::ProcessFallback, "https://t.co/abc".to_string());
    let reached = Event::Reached { url: "https://example.org/".to_string() };
    assert_eq!(finished(resume(session, reached)), Ok("https://example.org/".to_string()));
}

#[test]
fn click_url_scenario() {
    let (session, _) = start(Strategy::ClickUrl, "https://adfoc.us/abc".to_string());
    let body = "var click_url = \"https://example.org/c\";";
    assert_eq!(finished(resume(session, page(403, body))), Ok("https://example.org/c".to_string()));
}

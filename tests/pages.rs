use urlexpand::pages::{
    click_target, did_not_move, fallback_target, on_service, script_target,
    warning_target,
};
use urlexpand::pattern::{extract, pick_group};
use urlexpand::resolvers::meta_refresh::unshort as meta_refresh_target;
use urlexpand::resolvers::{nowlinks, rlu, tinyurl, twitter, window};
use urlexpand::replies::{api_target, api_url, location_target, tool_target};
use urlexpand::text::trim;
use urlexpand::transport::{agent_string, next_hop, wants_body, Agent, Fetch, Hop};
use urlexpand::Error;

#[test]
fn extract_takes_the_first_participating_group() {
    assert_eq!(extract("a=1 b=2", "b=([0-9])|a=([0-9])"), Some("1".to_string()));
    assert_eq!(extract("x=7", "(y)?x=([0-9])"), Some("7".to_string()));
    assert_eq!(extract("nothing here", "x=([0-9])"), None);
}

#[test]
fn extract_without_groups_takes_the_whole_match() {
    assert_eq!(extract("abc123def", "[0-9]+"), Some("123".to_string()));
}

#[test]
fn extract_with_a_bad_pattern_finds_nothing() {
    assert_eq!(extract("abc", "(unclosed"), None);
}

#[test]
fn pick_group_chooses_among_groups() {
    let s = |x: &str| Some(x.to_string());
    assert_eq!(pick_group(&vec![s("whole")]), s("whole"));
    assert_eq!(pick_group(&vec![s("whole"), None, s("second")]), s("second"));
    assert_eq!(pick_group(&vec![s("whole"), None]), None);
    assert_eq!(pick_group(&vec![]), None);
}

#[test]
fn meta_refresh_reads_the_refresh_target() {
    let page = "<meta http-equiv=\"refresh\" content=\"0; URL=https://example.org/x\">";
    assert_eq!(meta_refresh_target(page), Some("https://example.org/x".to_string()));
    let page = "<meta http-equiv=\"refresh\" content=\"0\" URL=\"https://example.org/x\">";
    assert_eq!(meta_refresh_target(page), Some("https://example.org/x".to_string()));
    assert_eq!(meta_refresh_target("<p>none</p>"), None);
}

#[test]
fn script_redirect_reads_each_idiom() {
    assert_eq!(
        script_target("<script>window.location='https://example.org/y';</script>"),
        Some("https://example.org/y".to_string())
    );
    assert_eq!(
        script_target("<script>window.open(\"https://example.org/o\")</script>"),
        Some("https://example.org/o".to_string())
    );
    assert_eq!(
        script_target("<a target='_blank'>https://example.org/n</a>"),
        Some("https://example.org/n".to_string())
    );
    assert_eq!(
        script_target("<a id=\"redirecturl\" href=\"https://example.org/t\">go</a>"),
        Some("https://example.org/t".to_string())
    );
    assert_eq!(
        script_target("<iframe src='https://example.org/v\" scrolling=no>"),
        Some("https://example.org/v".to_string())
    );
    assert_eq!(
        script_target("Here is the URL which you want to visit:<br><br>\n<a href=\"https://example.org/r\">"),
        Some("https://example.org/r".to_string())
    );
    assert_eq!(script_target("<p>plain</p>"), None);
}

#[test]
fn click_target_reads_the_ad_variable() {
    assert_eq!(
        click_target("var click_url = \"https://example.org/c\"; var x;"),
        Some("https://example.org/c".to_string())
    );
    assert_eq!(click_target("var other = 1;"), None);
}

#[test]
fn warning_page_link_follows_the_marker() {
    let page = "<a data-tracking-control-name=\"external_url_click\" class=\"btn\" href=\"https://example.org/w\">go</a>";
    assert_eq!(warning_target(page), Some("https://example.org/w".to_string()));
    assert_eq!(warning_target("<a href=\"https://example.org/w\">go</a>"), None);
}

#[test]
fn fallback_prefers_the_direct_link() {
    let page = "<a href=\"https://example.org/other\">x</a> <a href=\"https://example.org/direct\">Direct link</a> <img src=\"https://api.miniature.io/?url=https://example.org/preview\"> <a href=\"/go?url=https://example.org/query\">";
    assert_eq!(fallback_target(page), Some("https://example.org/direct".to_string()));
}

#[test]
fn fallback_markers_in_order() {
    let page = "{\"url\":\"https://example.org/json\"} <a href=\"/go?url=https://example.org/query\">";
    assert_eq!(fallback_target(page), Some("https://example.org/json".to_string()));
    let page = "<a href=\"/go?url=https://example.org/query\">";
    assert_eq!(fallback_target(page), Some("https://example.org/query".to_string()));
    let page = "<img src=\"https://api.miniature.io/?url=https://example.org/preview\"> {\"url\":\"https://example.org/json\"}";
    assert_eq!(fallback_target(page), Some("https://example.org/preview".to_string()));
}

#[test]
fn fallback_takes_the_last_preview_marker() {
    let page = "<img src=\"https://api.miniature.io/?url=https://example.org/first\"> <img src=\"https://api.miniature.io/?url=https://example.org/last\">";
    assert_eq!(fallback_target(page), Some("https://example.org/last".to_string()));
}

#[test]
fn fallback_skips_values_that_are_not_absolute() {
    let page = "<a href=\"/relative\">Direct link</a> <a href=\"/go?url=ftp://x\"> {\"url\":\"http://example.org/ok\"}";
    assert_eq!(fallback_target(page), Some("http://example.org/ok".to_string()));
    assert_eq!(fallback_target("<p>nothing</p>"), None);
}

#[test]
fn redirect_that_did_not_move() {
    assert!(did_not_move("https://surl.li/abc", "https://surl.li/abc"));
    assert!(did_not_move("surl.li/abc", "https://surl.li/abc"));
    assert!(!did_not_move("https://surl.li/abc", "https://example.org/dest"));
}

#[test]
fn redirect_still_on_the_service_site() {
    assert!(on_service("https://www.linkedin.com/safety/go?url=x"));
    assert!(on_service("https://lnkd.in/abc"));
    assert!(!on_service("https://example.org/"));
}

#[test]
fn location_header_outcomes() {
    assert_eq!(
        location_target(Some(Ok("https://example.org/z".to_string()))),
        Ok("https://example.org/z".to_string())
    );
    assert_eq!(location_target(None), Err(Error::NoString));
    assert_eq!(
        location_target(Some(Err(Error::ReqwestHeader("bad".to_string())))),
        Err(Error::ReqwestHeader("bad".to_string()))
    );
}

#[test]
fn api_answers() {
    let ok = |s: &str| Ok::<Option<String>, Error>(Some(s.to_string()));
    assert_eq!(
        api_target(200, None, ok(" https://final.example/ ")),
        Ok("https://final.example/".to_string())
    );
    assert_eq!(
        api_target(302, Some("https://loc.example/".to_string()), ok("https://body.example/")),
        Ok("https://loc.example/".to_string())
    );
    assert_eq!(api_target(302, Some("  ".to_string()), ok("x")), Err(Error::NoString));
    assert_eq!(api_target(200, None, ok("   ")), Err(Error::NoString));
    assert_eq!(api_target(200, None, Ok(None)), Err(Error::NoString));
    assert_eq!(
        api_target(200, None, Err(Error::Reqwest("json".to_string()))),
        Err(Error::Reqwest("json".to_string()))
    );
    assert_eq!(api_target(404, None, ok("https://x.example/")), Err(Error::NoString));
    assert_eq!(api_url("XYZ"), "https://dr-api.encurtador.dev/encurtamentos/XYZ");
}

#[test]
fn tool_outputs() {
    assert_eq!(
        tool_target("https://t.co/a", "https://example.org/\n"),
        Ok("https://example.org/".to_string())
    );
    assert_eq!(tool_target("https://t.co/a", "https://t.co/a"), Err(Error::NoString));
    assert_eq!(tool_target("https://t.co/a", " \n"), Err(Error::NoString));
}

#[test]
fn trim_removes_unicode_whitespace() {
    assert_eq!(trim("\u{a0} a b\t\n\u{3000}"), "a b");
    assert_eq!(trim("   "), "");
    assert_eq!(trim("x"), "x");
}

#[test]
fn redirect_policy_stops_off_the_origin_host() {
    let h = |s: &str| Some(s.to_string());
    assert_eq!(next_hop(&vec![h("bit.ly")], &h("bit.ly")), Hop::Follow);
    assert_eq!(next_hop(&vec![h("bit.ly")], &h("google.com")), Hop::Stop);
    assert_eq!(next_hop(&vec![h("bit.ly"), h("bit.ly")], &h("bit.ly")), Hop::Follow);
    assert_eq!(next_hop(&vec![h("bit.ly"), h("bit.ly")], &h("google.com")), Hop::Stop);
    assert_eq!(next_hop(&vec![None], &None), Hop::Follow);
}

#[test]
fn redirect_chain_is_not_followed_past_the_host_change() {
    // origin -> A -> A -> B, A on the origin's host: B is never requested
    let chain = ["a.example", "a.example", "a.example", "b.example", "c.example"];
    let mut requested: Vec<Option<String>> = vec![Some(chain[0].to_string())];
    while requested.len() < chain.len() {
        let target = Some(chain[requested.len()].to_string());
        if next_hop(&requested, &target) == Hop::Stop {
            break;
        }
        requested.push(target);
    }
    assert_eq!(requested.len(), 3);
    assert_eq!(requested.last().unwrap().as_deref(), Some("a.example"));
}

#[test]
fn bodies_are_read_by_rule() {
    assert!(wants_body(Fetch::Any, 200));
    assert!(wants_body(Fetch::IfOk, 200));
    assert!(!wants_body(Fetch::IfOk, 301));
    assert!(wants_body(Fetch::IfNotOk, 301));
    assert!(!wants_body(Fetch::IfNotOk, 200));
}

#[test]
fn agents() {
    assert_eq!(agent_string(Agent::Tool), "curl/7.72.0");
    assert_eq!(
        agent_string(Agent::Browser),
        "Mozilla/5.0 (X11; Linux x86_64; rv:128.0) Gecko/20100101 Firefox/128.0"
    );
}

#[test]
fn error_messages() {
    assert_eq!(Error::NoString.message(), "no string");
    assert_eq!(Error::NotRecognized.message(), "not a known short url");
}

#[test]
fn single_service_resolvers() {
    assert_eq!(
        nowlinks::unshort("<a target='_blank'>https://example.org/n</a>"),
        Some("https://example.org/n".to_string())
    );
    assert_eq!(
        rlu::unshort("Here is the URL which you want to visit:<br><br>\n<a href=\"https://example.org/r\">"),
        Some("https://example.org/r".to_string())
    );
    assert_eq!(
        tinyurl::unshort("<a id=\"redirecturl\" href=\"https://example.org/t\">go</a>"),
        Some("https://example.org/t".to_string())
    );
    assert_eq!(
        twitter::unshort(200, "<meta content=\"0;URL=https://example.org/tw\">"),
        Some("https://example.org/tw".to_string())
    );
    assert_eq!(twitter::unshort(301, "<meta content=\"0;URL=https://example.org/tw\">"), None);
    assert_eq!(
        window::unshort("window.open(\"https://example.org/o\")"),
        Some("https://example.org/o".to_string())
    );
    assert_eq!(
        window::unshort("window.location='https://example.org/l';"),
        Some("https://example.org/l".to_string())
    );
    assert_eq!(window::unshort("location.href='x'"), None);
}

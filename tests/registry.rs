use urlexpand::is_shortened;
use urlexpand::services::{service_entry, which_service_index, SERVICE_COUNT};
use urlexpand::{which_service, Strategy};

#[test]
fn test_is_shortened() {
    let url = "https://bit.ly/3alqLKi";
    assert!(is_shortened(url));
    let url = "https://www.google.com";
    assert!(!is_shortened(url));
}

#[test]
fn every_registered_domain_is_recognised() {
    for i in 0..SERVICE_COUNT {
        let (domain, _) = service_entry(i);
        let url = format!("https://{}/anything", domain);
        assert!(is_shortened(&url), "{}", url);
    }
}

#[test]
fn unregistered_domain_is_not_recognised() {
    assert!(!is_shortened("https://example.com/anything"));
    assert!(!is_shortened("https://my-own-site.test/page"));
    assert!(!is_shortened(""));
}

#[test]
fn which_service_takes_the_first_registered_match() {
    assert_eq!(which_service("https://bit.ly/3alqLKi"), Some("bit.ly"));
    assert_eq!(which_service("https://tinyurl.com/abc"), Some("tinyurl.com"));
    assert_eq!(which_service("https://example.com/"), None);
    // a registered domain in the path counts too
    assert_eq!(which_service("https://example.com/?u=t.co/x"), Some("t.co"));
    // bit.ly comes before t.co in the registry
    assert_eq!(which_service("https://t.co/bit.ly"), Some("bit.ly"));
}

#[test]
fn registry_maps_domains_to_strategies() {
    let strategy_of = |d: &str| {
        let i = which_service_index(&format!("https://{}/x", d)).unwrap();
        service_entry(i).1
    };
    assert_eq!(strategy_of("bit.ly"), Strategy::Generic);
    assert_eq!(strategy_of("adf.ly"), Strategy::ObfuscatedPayload);
    assert_eq!(strategy_of("tinyurl.com"), Strategy::ScriptRedirect);
    assert_eq!(strategy_of("soo.gd"), Strategy::MetaRefresh);
    assert_eq!(strategy_of("adfoc.us"), Strategy::ClickUrl);
    assert_eq!(strategy_of("shorturl.at"), Strategy::HeaderLocation);
    assert_eq!(strategy_of("t.co"), Strategy::ToolRedirect);
    assert_eq!(strategy_of("2cm.es"), Strategy::BrowserRedirect);
    assert_eq!(strategy_of("lnkd.in"), Strategy::Interstitial);
    assert_eq!(strategy_of("surl.li"), Strategy::HtmlFallback);
    assert_eq!(strategy_of("l1nq.com"), Strategy::ApiLookup);
}

use abe_frontend::lander_url_generator::{
    campaign_click_url, campaign_multi_offer_click_url, click_paths, click_urls, LanderUrlGenerator,
    UrlNotice,
};

#[test]
fn click_paths_by_link() {
    assert_eq!(click_paths(1, false), vec!["extra".to_string()]);
    assert_eq!(click_paths(3, true), vec!["learn/1".to_string(), "learn/2".to_string(), "learn/3".to_string()]);
    assert!(click_paths(0, true).is_empty());
}

#[test]
fn click_urls_put_paths_on_the_domain() {
    let urls = click_urls("https://track.example.com/", 2, false);
    assert_eq!(
        urls,
        vec![
            Some("https://track.example.com/extra/1".to_string()),
            Some("https://track.example.com/extra/2".to_string()),
        ]
    );
    assert_eq!(click_urls("not a domain", 1, false), vec![None]);
}

#[test]
fn campaign_click_urls() {
    assert_eq!(campaign_click_url("https://t.example.com/"), "https://t.example.com/extra");
    assert_eq!(campaign_multi_offer_click_url("https://t.example.com/"), "https://t.example.com/extra/1");
}

#[test]
fn blur_gives_the_url_with_a_query() {
    let mut g = LanderUrlGenerator::create(vec![]);
    g.on_input("https://lp.example.com/page".to_string());
    assert_eq!(g.on_blur(), Ok("https://lp.example.com/page?".to_string()));
    g.on_input("https://lp.example.com/page?a=1".to_string());
    assert_eq!(g.on_blur(), Ok("https://lp.example.com/page?a=1".to_string()));
    g.on_input("lp.example.com".to_string());
    assert_eq!(g.on_blur(), Err(UrlNotice::InvalidUrl));
}

#[test]
fn picked_tokens_are_appended_and_dropped() {
    let mut g = LanderUrlGenerator::create(vec![]);
    g.on_input("https://lp.example.com/?".to_string());
    let emitted = g.change(None, vec!["&c={campaign}".to_string()]);
    assert_eq!(g.url_string, "https://lp.example.com/?&c={campaign}");
    assert_eq!(emitted, Some("https://lp.example.com/?&c={campaign}".to_string()));
    let emitted = g.change(None, vec![]);
    assert_eq!(g.url_string, "https://lp.example.com/?");
    assert_eq!(emitted, Some("https://lp.example.com/?".to_string()));
    let emitted = g.change(Some("https://other.example.com/".to_string()), vec![]);
    assert_eq!(g.url_string, "https://other.example.com/");
    assert_eq!(emitted, None);
}

#[test]
fn emitted_url_is_the_parsed_serialization() {
    let mut g = LanderUrlGenerator::create(vec![]);
    g.on_input("HTTPS://LP.Example.COM".to_string());
    let emitted = g.change(None, vec!["/p".to_string()]);
    assert_eq!(g.url_string, "HTTPS://LP.Example.COM/p");
    assert_eq!(emitted, Some("https://lp.example.com/p".to_string()));
}

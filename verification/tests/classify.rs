use polylink::crawler::{is_crawler, CrawlerTable};
use polylink::link_router::{classify, get_platform_from_user_agent, Platform, RequestActor};

fn table(patterns: &[&str]) -> CrawlerTable {
    let owned: Vec<String> = patterns.iter().map(|p| p.to_string()).collect();
    CrawlerTable::new(owned).expect("every pattern compiles")
}

#[test]
fn absent_user_agent_is_unknown_platform() {
    let t = table(&["Googlebot"]);
    assert_eq!(classify(&t, None), RequestActor::User(Platform::Unknown));
}

#[test]
fn crawler_takes_precedence_over_platform_detection() {
    let t = table(&["Googlebot", "bingbot"]);
    let ua = "Mozilla/5.0 (Linux; Android 6.0.1; Nexus 5X Build/MMB29P) AppleWebKit/537.36 \
              (KHTML, like Gecko) Chrome/41.0.2272.96 Mobile Safari/537.36 \
              (compatible; Googlebot/2.1; +http://www.google.com/bot.html)";
    assert!(is_crawler(&t, ua));
    assert_eq!(classify(&t, Some(ua)), RequestActor::Crawler);
}

#[test]
fn iphone_is_ios() {
    let t = table(&["Googlebot"]);
    let ua = "Mozilla/5.0 (iPhone; CPU iPhone OS 15_0)";
    assert_eq!(classify(&t, Some(ua)), RequestActor::User(Platform::Ios));
}

#[test]
fn linux_desktop_is_web() {
    let t = table(&["Googlebot"]);
    let ua = "Mozilla/5.0 (X11; Linux x86_64)";
    assert_eq!(classify(&t, Some(ua)), RequestActor::User(Platform::Web));
}

#[test]
fn android_wins_over_the_linux_token() {
    let t = table(&["Googlebot"]);
    let ua = "Mozilla/5.0 (Linux; Android 13; Pixel 7)";
    assert_eq!(classify(&t, Some(ua)), RequestActor::User(Platform::Android));
}

#[test]
fn ipad_and_ipod_are_ios() {
    assert_eq!(
        get_platform_from_user_agent("Mozilla/5.0 (iPad; CPU OS 15_0 like Mac OS X)"),
        Platform::Ios
    );
    assert_eq!(
        get_platform_from_user_agent("Mozilla/5.0 (iPod touch; CPU iPhone OS 15_0)"),
        Platform::Ios
    );
}

#[test]
fn windows_and_macintosh_are_web() {
    assert_eq!(
        get_platform_from_user_agent("Mozilla/5.0 (Windows NT 10.0; Win64; x64)"),
        Platform::Web
    );
    assert_eq!(
        get_platform_from_user_agent("Mozilla/5.0 (Macintosh; Intel Mac OS X 12_6)"),
        Platform::Web
    );
}

#[test]
fn unrecognized_user_agent_is_unknown() {
    let t = table(&["Googlebot"]);
    assert_eq!(
        classify(&t, Some("curl/8.0.1")),
        RequestActor::User(Platform::Unknown)
    );
}

#[test]
fn signatures_are_regular_expressions() {
    let t = table(&["bot|crawler", "^Slackbot"]);
    assert!(is_crawler(&t, "Slackbot 1.0 (+https://api.slack.com/robots)"));
    assert!(is_crawler(&t, "my-crawler/1.0"));
    assert!(!is_crawler(&t, "Mozilla/5.0 (X11; Linux x86_64)"));
}

#[test]
fn empty_table_matches_nothing() {
    let t = table(&[]);
    assert!(!is_crawler(&t, "Googlebot/2.1"));
}

#[test]
fn invalid_pattern_is_rejected_at_table_construction() {
    assert!(CrawlerTable::new(vec!["(unclosed".to_string()]).is_none());
}

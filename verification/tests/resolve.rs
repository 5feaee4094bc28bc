use polylink::dao::Link;
use polylink::link_router::{
    is_bad_link_configuration, link_handler, resolve, resolve_with_base, Platform, RequestActor,
    ResolvedAction, RouteOutcome,
};
use polylink::Error;

const BASE: &str = "https://links.example.com/";

fn sample_link() -> Link {
    Link {
        id: 1,
        link_path: "ABCDEF0123456789ABCDEF01".to_string(),
        title: "A title".to_string(),
        description: "A description".to_string(),
        image_url: "https://cdn.example.com/img.png".to_string(),
        web_destination: "https://example.com/web".to_string(),
        ios_destination: "https://example.com/ios".to_string(),
        android_destination: "https://example.com/android".to_string(),
    }
}

#[test]
fn crawler_gets_preview_with_joined_url() {
    let link = sample_link();
    let action = resolve_with_base(&RequestActor::Crawler, &link, BASE).unwrap();
    match action {
        ResolvedAction::RenderPreview { title, description, content_type, url, image_url } => {
            assert_eq!(title, "A title");
            assert_eq!(description, "A description");
            assert_eq!(content_type, "website");
            assert_eq!(url, "https://links.example.com/ABCDEF0123456789ABCDEF01");
            assert_eq!(image_url, "https://cdn.example.com/img.png");
        }
        ResolvedAction::Redirect(_) => panic!("a crawler must get a preview"),
    }
}

#[test]
fn crawler_preview_ignores_destination_fields() {
    let mut link = sample_link();
    link.web_destination = String::new();
    link.ios_destination = String::new();
    link.android_destination = String::new();
    let action = resolve_with_base(&RequestActor::Crawler, &link, BASE).unwrap();
    assert!(matches!(action, ResolvedAction::RenderPreview { .. }));
}

#[test]
fn android_redirects_to_android_destination() {
    let link = sample_link();
    let action = resolve(&RequestActor::User(Platform::Android), &link, String::new());
    assert_eq!(
        action,
        ResolvedAction::Redirect("https://example.com/android".to_string())
    );
}

#[test]
fn empty_android_destination_still_redirects_to_empty() {
    let mut link = sample_link();
    link.android_destination = String::new();
    let action = resolve(&RequestActor::User(Platform::Android), &link, String::new());
    assert_eq!(action, ResolvedAction::Redirect(String::new()));
    assert!(is_bad_link_configuration(&action));
}

#[test]
fn ios_redirects_to_ios_destination() {
    let link = sample_link();
    let action = resolve(&RequestActor::User(Platform::Ios), &link, String::new());
    assert_eq!(
        action,
        ResolvedAction::Redirect("https://example.com/ios".to_string())
    );
}

#[test]
fn web_and_unknown_redirect_to_web_destination() {
    let link = sample_link();
    let expected = ResolvedAction::Redirect("https://example.com/web".to_string());
    assert_eq!(
        resolve(&RequestActor::User(Platform::Web), &link, String::new()),
        expected
    );
    assert_eq!(
        resolve(&RequestActor::User(Platform::Unknown), &link, String::new()),
        expected
    );
}

#[test]
fn nonempty_redirect_is_not_bad_configuration() {
    let link = sample_link();
    let action = resolve(&RequestActor::User(Platform::Web), &link, String::new());
    assert!(!is_bad_link_configuration(&action));
    let preview = resolve(&RequestActor::Crawler, &link, "u".to_string());
    assert!(!is_bad_link_configuration(&preview));
}

#[test]
fn handler_passes_store_failure_through() {
    let outcome = link_handler(
        Err(Error::StoreError),
        &RequestActor::User(Platform::Web),
        BASE,
    );
    assert_eq!(outcome, RouteOutcome::Failure(Error::StoreError));
}

#[test]
fn handler_maps_absent_link_to_not_found() {
    let outcome = link_handler(Ok(None), &RequestActor::Crawler, BASE);
    assert_eq!(outcome, RouteOutcome::NotFound);
}

#[test]
fn handler_resolves_found_link() {
    let outcome = link_handler(
        Ok(Some(sample_link())),
        &RequestActor::User(Platform::Ios),
        BASE,
    );
    assert_eq!(
        outcome,
        RouteOutcome::Action(ResolvedAction::Redirect(
            "https://example.com/ios".to_string()
        ))
    );
}

#[test]
fn handler_builds_crawler_preview_from_base_url() {
    let outcome = link_handler(Ok(Some(sample_link())), &RequestActor::Crawler, BASE);
    match outcome {
        RouteOutcome::Action(ResolvedAction::RenderPreview { url, .. }) => {
            assert_eq!(url, "https://links.example.com/ABCDEF0123456789ABCDEF01");
        }
        other => panic!("expected a preview, got {:?}", other),
    }
}

use alita::{icon_url, Decision, Interceptor, ResourceType};

const SKIPPED: [ResourceType; 6] = [
    ResourceType::Image,
    ResourceType::Stylesheet,
    ResourceType::Media,
    ResourceType::Font,
    ResourceType::Ping,
    ResourceType::Manifest,
];

#[test]
fn icon_urls() {
    assert!(icon_url("https://example.com/favicon.ico"));
    assert!(icon_url(".ico"));
    assert!(!icon_url("ico"));
    assert!(!icon_url("https://example.com/favicon.png"));
    assert!(!icon_url("https://example.com/ico"));
}

#[test]
fn subresources_are_aborted() {
    let mut i = Interceptor::new(Some("<p>x</p>".to_string()));
    for kind in SKIPPED {
        assert!(matches!(i.decide("https://example.com/a.png", kind), Decision::Abort));
    }
    assert!(!i.is_consumed());
}

#[test]
fn icons_always_continue() {
    let mut i = Interceptor::new(Some("<p>x</p>".to_string()));
    for kind in SKIPPED {
        assert!(matches!(i.decide("https://example.com/favicon.ico", kind), Decision::Continue));
    }
    assert!(matches!(i.decide("https://example.com/favicon.ico", ResourceType::Document), Decision::Continue));
    assert!(!i.is_consumed());
}

#[test]
fn first_document_is_fulfilled_once() {
    let mut i = Interceptor::new(Some("hello".to_string()));
    match i.decide("https://example.com/article", ResourceType::Document) {
        Decision::Fulfill { status, headers, body } => {
            assert_eq!(status, 200);
            assert_eq!(headers, vec![("Content-Type".to_string(), "text/html".to_string())]);
            assert_eq!(body, "aGVsbG8=");
        }
        _ => panic!("expected the cached body"),
    }
    assert!(i.is_consumed());
    assert!(matches!(i.decide("https://example.com/article", ResourceType::Document), Decision::Continue));
    assert!(matches!(i.decide("https://example.com/next", ResourceType::Document), Decision::Continue));
}

#[test]
fn scripts_continue_without_consuming() {
    let mut i = Interceptor::new(Some("hello".to_string()));
    assert!(matches!(i.decide("https://example.com/app.js", ResourceType::Other), Decision::Continue));
    assert!(!i.is_consumed());
    assert!(matches!(i.decide("https://example.com/", ResourceType::Document), Decision::Fulfill { .. }));
}

#[test]
fn no_payload_lets_documents_through() {
    let mut i = Interceptor::new(None);
    assert!(matches!(i.decide("https://example.com/", ResourceType::Document), Decision::Continue));
    assert!(!i.is_consumed());
}

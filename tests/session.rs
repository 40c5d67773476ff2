use alita::{Event, FetchError, FetchRequest, FetchSession, NetworkFailure, Step, WaitPlan};

const URL: &str = "https://example.com/article";
const CLEAN: &str = "<html><body><article>story</article></body></html>";
const BLOCKED: &str = "<html><body><div class=\"captcha\">are you human?</div></body></html>";

fn request() -> FetchRequest {
    let mut r = FetchRequest::new(URL.to_string());
    r.is_blocked_elements = vec!["div.captcha".to_string()];
    r
}

fn fetched(body: &str) -> Event {
    Event::Fetched { status: 200, body: body.to_string() }
}

/// Runs a session up to the render step and checks that step.
fn up_to_render(req: FetchRequest) -> (FetchSession, WaitPlan) {
    let (mut s, step) = FetchSession::start(req);
    assert!(matches!(step, Step::Get { ref url } if url == URL));
    assert!(matches!(s.advance(fetched(BLOCKED)), Step::AcquireTab));
    match s.advance(Event::TabReady) {
        Step::Render { url, wait, payload } => {
            assert_eq!(url, URL);
            assert_eq!(payload, BLOCKED);
            (s, wait)
        }
        _ => panic!("expected a render"),
    }
}

#[test]
fn clean_page_is_returned_without_a_tab() {
    let (mut s, _) = FetchSession::start(request());
    match s.advance(fetched(CLEAN)) {
        Step::Finish { release_tab, result: Ok(html) } => {
            assert!(!release_tab);
            assert_eq!(html, CLEAN);
        }
        _ => panic!("expected the direct body"),
    }
    assert!(!s.accepts(&Event::TabReady));
}

#[test]
fn blocked_page_is_rendered_with_the_fetched_body() {
    let (mut s, wait) = up_to_render(request());
    assert!(matches!(wait, WaitPlan::Navigated));
    let rendered = "<html><body><article>story after scripts</article></body></html>";
    assert!(matches!(s.advance(Event::Rendered { html: rendered.to_string() }), Step::ParkTab));
    match s.advance(Event::Parked) {
        Step::Finish { release_tab, result: Ok(html) } => {
            assert!(release_tab);
            assert_eq!(html, rendered);
        }
        _ => panic!("expected the rendered page"),
    }
}

#[test]
fn element_that_never_appears_times_out() {
    let mut req = request();
    req.wait_for_element = Some(".loaded".to_string());
    req.wait_timeout = Some(5);
    let (mut s, wait) = up_to_render(req);
    match wait {
        WaitPlan::Element { selector, timeout_secs } => {
            assert_eq!(selector, ".loaded");
            assert_eq!(timeout_secs, 5);
        }
        _ => panic!("expected a wait for the element"),
    }
    assert!(matches!(s.advance(Event::WaitTimedOut), Step::ParkTab));
    assert!(matches!(
        s.advance(Event::Parked),
        Step::Finish { release_tab: true, result: Err(FetchError::NavigationTimeout) }
    ));
}

#[test]
fn element_wait_defaults_to_twenty_seconds() {
    let mut req = request();
    req.wait_for_element = Some(".loaded".to_string());
    let (_, wait) = up_to_render(req);
    assert!(matches!(wait, WaitPlan::Element { timeout_secs: 20, .. }));
}

#[test]
fn still_blocked_after_render_fails_the_bypass() {
    let (mut s, _) = up_to_render(request());
    assert!(matches!(s.advance(Event::Rendered { html: BLOCKED.to_string() }), Step::ParkTab));
    assert!(matches!(
        s.advance(Event::Parked),
        Step::Finish { release_tab: true, result: Err(FetchError::BypassFailed) }
    ));
    assert!(!s.accepts(&Event::TabReady));
}

#[test]
fn navigation_failure_still_parks_the_tab() {
    let (mut s, _) = up_to_render(request());
    assert!(matches!(s.advance(Event::RenderFailed { message: "net::ERR".to_string() }), Step::ParkTab));
    match s.advance(Event::Parked) {
        Step::Finish { release_tab: true, result: Err(FetchError::Navigation(m)) } => assert_eq!(m, "net::ERR"),
        _ => panic!("expected a navigation error"),
    }
}

#[test]
fn failed_parking_after_a_good_render_is_a_navigation_error() {
    let (mut s, _) = up_to_render(request());
    assert!(matches!(s.advance(Event::Rendered { html: CLEAN.to_string() }), Step::ParkTab));
    match s.advance(Event::ParkFailed { message: "blank".to_string() }) {
        Step::Finish { release_tab: true, result: Err(FetchError::Navigation(m)) } => assert_eq!(m, "blank"),
        _ => panic!("expected a navigation error"),
    }
}

#[test]
fn error_status_is_a_network_error() {
    let (mut s, _) = FetchSession::start(request());
    assert!(matches!(
        s.advance(Event::Fetched { status: 404, body: BLOCKED.to_string() }),
        Step::Finish { release_tab: false, result: Err(FetchError::Network(NetworkFailure::Status(404))) }
    ));
}

#[test]
fn transport_failure_is_a_network_error() {
    let (mut s, _) = FetchSession::start(request());
    match s.advance(Event::FetchFailed { message: "refused".to_string() }) {
        Step::Finish { release_tab: false, result: Err(FetchError::Network(NetworkFailure::Transport(m))) } => {
            assert_eq!(m, "refused")
        }
        _ => panic!("expected a transport error"),
    }
}

#[test]
fn unparsable_selector_keeps_the_fast_path() {
    let mut req = request();
    req.is_blocked_elements = vec!["::not-valid::".to_string()];
    let (mut s, _) = FetchSession::start(req);
    match s.advance(fetched(BLOCKED)) {
        Step::Finish { release_tab: false, result: Ok(html) } => assert_eq!(html, BLOCKED),
        _ => panic!("expected the direct body"),
    }
}

#[test]
fn sessions_accept_only_the_expected_event() {
    let (s, _) = FetchSession::start(request());
    assert!(s.accepts(&fetched(CLEAN)));
    assert!(!s.accepts(&Event::Parked));
}

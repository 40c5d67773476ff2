use vstd::prelude::*;

verus! {

/// Seconds to wait for `wait_for_element` when the request names no timeout.
pub const DEFAULT_WAIT_TIMEOUT_SECS: usize = 20;

/// One page to fetch, with what tells a block page apart.
pub struct FetchRequest {
    /// The page to fetch.
    pub url: String,
    /// A CSS selector to wait for once the browser has navigated.
    pub wait_for_element: Option<String>,
    /// How long to wait for `wait_for_element`, in seconds.
    pub wait_timeout: Option<usize>,
    /// CSS selectors whose presence marks a bot-blocking page, in order.
    pub is_blocked_elements: Vec<String>,
}

impl FetchRequest {
    /// The wait timeout in seconds, with the default filled in.
    pub open spec fn spec_wait_timeout_secs(&self) -> usize {
        match self.wait_timeout {
            Some(t) => t,
            None => DEFAULT_WAIT_TIMEOUT_SECS,
        }
    }

    /// A request for `url` with no wait and no blocking selectors.
    pub fn new(url: String) -> (r: FetchRequest)
        ensures
            r.url == url,
            r.wait_for_element is None,
            r.wait_timeout is None,
            r.is_blocked_elements@.len() == 0,
    {
        FetchRequest {
            url,
            wait_for_element: None,
            wait_timeout: None,
            is_blocked_elements: Vec::new(),
        }
    }

    /// How long to wait for `wait_for_element`, in seconds.
    pub fn wait_timeout_secs(&self) -> (r: usize)
        ensures
            r == self.spec_wait_timeout_secs(),
    {
        match self.wait_timeout {
            Some(t) => t,
            None => DEFAULT_WAIT_TIMEOUT_SECS,
        }
    }
}

} // verus!

//! Two-tier page fetching: a cheap direct fetch first, and a browser render
//! only when the direct fetch lands on a bot-blocking page.
//!
//! The library holds the decisions of that strategy; the network, the browser
//! and the tab pool are driven by the caller, which feeds their results back in.
pub mod config;
pub mod detect;
pub mod headers;
pub mod intercept;
pub mod request;
pub mod session;

pub use config::{tab_pool_size, DEFAULT_TAB_POOL_SIZE};
pub use detect::{is_blocked, Document};
pub use headers::{browser_headers, header_value, user_agent};
pub use intercept::{icon_url, Decision, Interceptor, ResourceType};
pub use request::{FetchRequest, DEFAULT_WAIT_TIMEOUT_SECS};
pub use session::{wait_plan, Event, FetchError, FetchSession, NetworkFailure, Phase, Step, WaitPlan};

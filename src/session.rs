use vstd::prelude::*;
use crate::detect::{blocked, is_blocked, Document};
use crate::request::FetchRequest;

verus! {

/// Why the direct fetch failed.
pub enum NetworkFailure {
    /// The server answered with a status outside 200..=299.
    Status(u16),
    /// The request could not be made or its body not read.
    Transport(String),
}

/// Why a fetch failed. Each is final for its request.
pub enum FetchError {
    /// The direct fetch failed; no browser render is tried.
    Network(NetworkFailure),
    /// The awaited element did not appear in time during the browser render.
    NavigationTimeout,
    /// The browser could not navigate.
    Navigation(String),
    /// The browser render still shows a blocking element.
    BypassFailed,
}

/// What the browser waits for after navigating.
pub enum WaitPlan {
    /// An element matching `selector`, for at most `timeout_secs` seconds.
    Element { selector: String, timeout_secs: u64 },
    /// The end of the navigation.
    Navigated,
}

/// What the caller does next for a fetch.
pub enum Step {
    /// Fetch `url` directly, with the shared headers.
    Get { url: String },
    /// Check a tab out of the pool, waiting until one is free.
    AcquireTab,
    /// Answer the page's document request from `payload` (see
    /// `Interceptor`), navigate to `url`, wait as `wait` says, and read the
    /// rendered page.
    Render { url: String, wait: WaitPlan, payload: String },
    /// Navigate the tab to a blank page.
    ParkTab,
    /// The fetch is over: give the tab back to the pool if `release_tab`, and
    /// answer with `result`.
    Finish { release_tab: bool, result: Result<String, FetchError> },
}

/// What the caller reports after doing a step.
pub enum Event {
    /// The direct fetch got an answer.
    Fetched { status: u16, body: String },
    /// The direct fetch could not be made.
    FetchFailed { message: String },
    /// A tab was checked out.
    TabReady,
    /// The browser rendered the page.
    Rendered { html: String },
    /// The awaited element did not appear in time.
    WaitTimedOut,
    /// The browser could not navigate or read the page.
    RenderFailed { message: String },
    /// The tab was parked on a blank page.
    Parked,
    /// Parking the tab failed.
    ParkFailed { message: String },
}

/// Where a fetch stands.
#[derive(Clone, Copy, PartialEq, Eq, Structural)]
pub enum Phase {
    Fetching,
    Acquiring,
    Rendering,
    Parking,
    Done,
}

/// The order in which a fetch goes through its phases.
pub open spec fn rank(p: Phase) -> int {
    match p {
        Phase::Fetching => 0,
        Phase::Acquiring => 1,
        Phase::Rendering => 2,
        Phase::Parking => 3,
        Phase::Done => 4,
    }
}

/// Phases that strictly rise from one step to the next rise over any span.
proof fn lemma_ranks_rise(phases: Seq<Phase>, a: int, b: int)
    requires
        forall|k: int| 0 <= k < phases.len() - 1 ==> rank(#[trigger] phases[k]) < rank(phases[k + 1]),
        0 <= a < b < phases.len(),
    ensures
        rank(phases[a]) < rank(phases[b]),
    decreases b - a,
{
    if a + 1 < b {
        lemma_ranks_rise(phases, a + 1, b);
    }
}

/// A fetch checks out at most one tab. `advance` asks for a tab only from
/// `Fetching`, and the phases that a session passes through strictly rise, so
/// no two of them are `Fetching`.
pub proof fn lemma_one_tab_per_fetch(phases: Seq<Phase>, i: int, j: int)
    requires
        forall|k: int| 0 <= k < phases.len() - 1 ==> rank(#[trigger] phases[k]) < rank(phases[k + 1]),
        0 <= i < phases.len(),
        0 <= j < phases.len(),
        phases[i] is Fetching,
        phases[j] is Fetching,
    ensures
        i == j,
{
    if i < j {
        lemma_ranks_rise(phases, i, j);
    } else if j < i {
        lemma_ranks_rise(phases, j, i);
    }
}

/// Whether `status` is a success status.
pub open spec fn is_success(status: u16) -> bool {
    200 <= status <= 299
}

/// The wait that `request` asks for after navigating.
pub open spec fn wait_plan_for(request: FetchRequest, wait: WaitPlan) -> bool {
    match request.wait_for_element {
        Some(sel) => wait matches WaitPlan::Element { selector, timeout_secs }
            && selector@ == sel@ && timeout_secs == request.spec_wait_timeout_secs() as u64,
        None => wait is Navigated,
    }
}

/// What the browser waits for after navigating for `request`: its element,
/// for its timeout (twenty seconds when it names none), or else the end of the
/// navigation.
pub fn wait_plan(request: &FetchRequest) -> (r: WaitPlan)
    ensures
        wait_plan_for(*request, r),
{
    match &request.wait_for_element {
        Some(sel) => WaitPlan::Element { selector: sel.clone(), timeout_secs: request.wait_timeout_secs() as u64 },
        None => WaitPlan::Navigated,
    }
}

/// One fetch, from the direct request to the answer.
pub struct FetchSession {
    /// The request being served.
    request: FetchRequest,
    /// Where the fetch stands.
    phase: Phase,
    /// The directly fetched body, kept for the render.
    payload: Option<String>,
    /// The outcome of the render, kept while the tab is parked.
    rendered: Option<Result<String, FetchError>>,
    /// Whether a tab is checked out.
    tab_held: bool,
}

impl FetchSession {
    /// The request being served.
    pub closed spec fn request(&self) -> FetchRequest {
        self.request
    }

    /// Where the fetch stands.
    pub closed spec fn phase(&self) -> Phase {
        self.phase
    }

    /// The directly fetched body, kept for the render.
    pub closed spec fn payload(&self) -> Option<String> {
        self.payload
    }

    /// The outcome of the render, kept while the tab is parked.
    pub closed spec fn rendered(&self) -> Option<Result<String, FetchError>> {
        self.rendered
    }

    /// Whether a tab is checked out.
    pub closed spec fn tab_held(&self) -> bool {
        self.tab_held
    }

    /// The session's invariant.
    pub closed spec fn wf(&self) -> bool {
        &&& (self.phase() is Acquiring) ==> self.payload() is Some && !self.tab_held()
        &&& (self.phase() is Rendering) ==> self.tab_held()
        &&& (self.phase() is Parking) ==> self.rendered() is Some && self.tab_held()
        &&& (self.phase() is Fetching) ==> !self.tab_held()
        &&& (self.phase() is Done) ==> !self.tab_held()
    }

    /// Whether the session takes `e` in its current phase.
    pub open spec fn spec_accepts(&self, e: &Event) -> bool {
        match self.phase() {
            Phase::Fetching => e is Fetched || e is FetchFailed,
            Phase::Acquiring => e is TabReady,
            Phase::Rendering => e is Rendered || e is WaitTimedOut || e is RenderFailed,
            Phase::Parking => e is Parked || e is ParkFailed,
            Phase::Done => false,
        }
    }

    /// Starts a fetch of `request`: the first step is the direct fetch.
    pub fn start(request: FetchRequest) -> (r: (FetchSession, Step))
        ensures
            r.0.wf(),
            r.0.phase() is Fetching,
            r.0.request() == request,
            r.1 matches Step::Get { url } && url@ == request.url@,
    {
        let url = request.url.clone();
        let s = FetchSession { request, phase: Phase::Fetching, payload: None, rendered: None, tab_held: false };
        (s, Step::Get { url })
    }

    /// Takes the caller's report on the last step and says what to do next.
    ///
    /// A direct fetch that fails, or answers with a status outside 200..=299,
    /// ends the fetch with a network error. A body that shows none of the
    /// request's blocking selectors is the answer, as it is, and no tab is
    /// used. Otherwise the body is kept, one tab is checked out, and the page
    /// is rendered with the kept body as its document. Whatever the render
    /// gives, the tab is parked on a blank page before it goes back to the
    /// pool. A rendered page that still shows a blocking selector ends the
    /// fetch with `BypassFailed`; no second render is tried.
    pub fn advance(&mut self, event: Event) -> (s: Step)
        requires
            old(self).wf(),
            old(self).spec_accepts(&event),
        ensures
            final(self).wf(),
            final(self).request() == old(self).request(),
            rank(final(self).phase()) > rank(old(self).phase()),
            s is AcquireTab ==> old(self).phase() is Fetching && final(self).phase() is Acquiring,
            s is Render <==> old(self).phase() is Acquiring,
            s is Render ==> final(self).phase() is Rendering && final(self).tab_held(),
            s is ParkTab <==> old(self).phase() is Rendering,
            s is ParkTab ==> final(self).phase() is Parking && final(self).tab_held(),
            s matches Step::Finish { release_tab, .. } ==> release_tab == (old(self).phase() is Parking),
            s is Finish <==> final(self).phase() is Done,
            event matches Event::Fetched { status, body } ==> {
                &&& (!is_success(status) ==> (s matches Step::Finish {
                    result: Err(FetchError::Network(NetworkFailure::Status(c))), ..
                } && c == status))
                &&& (is_success(status) && !blocked(body@, old(self).request().is_blocked_elements@)
                    ==> (s matches Step::Finish { result: Ok(h), .. } && h@ == body@))
                &&& (is_success(status) && blocked(body@, old(self).request().is_blocked_elements@)
                    ==> (s is AcquireTab && (final(self).payload() matches Some(p) && p@ == body@)))
            },
            event matches Event::FetchFailed { message } ==> (s matches Step::Finish {
                result: Err(FetchError::Network(NetworkFailure::Transport(m))), ..
            } && m@ == message@),
            event is TabReady ==> (s matches Step::Render { url, wait, payload } && url@ == old(self).request().url@
                && wait_plan_for(old(self).request(), wait) && (old(self).payload() matches Some(p) && payload@ == p@)),
            event matches Event::Rendered { html } ==> (final(self).rendered() matches Some(Ok(h)) && h@ == html@),
            event is WaitTimedOut ==> (final(self).rendered() matches Some(Err(FetchError::NavigationTimeout))),
            event matches Event::RenderFailed { message } ==> (final(self).rendered() matches Some(
                Err(FetchError::Navigation(m)),
            ) && m@ == message@),
            event is Parked ==> {
                &&& (old(self).rendered() matches Some(Err(e)) ==> (s matches Step::Finish { result, .. }
                    && result == Err::<String, FetchError>(e)))
                &&& (old(self).rendered() matches Some(Ok(h)) ==> (blocked(h@, old(self).request().is_blocked_elements@)
                    ==> (s matches Step::Finish { result: Err(FetchError::BypassFailed), .. })))
                &&& (old(self).rendered() matches Some(Ok(h)) ==> (!blocked(h@, old(self).request().is_blocked_elements@)
                    ==> (s matches Step::Finish { result: Ok(r), .. } && r@ == h@)))
            },
            event matches Event::ParkFailed { message } ==> {
                &&& (old(self).rendered() matches Some(Err(e)) ==> (s matches Step::Finish { result, .. }
                    && result == Err::<String, FetchError>(e)))
                &&& (old(self).rendered() matches Some(Ok(_)) ==> (s matches Step::Finish {
                    result: Err(FetchError::Navigation(m)), ..
                } && m@ == message@))
            },
    {
        match event {
            Event::Fetched { status, body } => {
                if 200 <= status && status <= 299 {
                    let doc = Document::parse(body);
                    let hit = is_blocked(&doc, self.request.is_blocked_elements.as_slice());
                    let body = doc.into_text();
                    if hit {
                        self.payload = Some(body);
                        self.phase = Phase::Acquiring;
                        Step::AcquireTab
                    } else {
                        self.phase = Phase::Done;
                        Step::Finish { release_tab: false, result: Ok(body) }
                    }
                } else {
                    self.phase = Phase::Done;
                    Step::Finish {
                        release_tab: false,
                        result: Err(FetchError::Network(NetworkFailure::Status(status))),
                    }
                }
            },
            Event::FetchFailed { message } => {
                self.phase = Phase::Done;
                Step::Finish {
                    release_tab: false,
                    result: Err(FetchError::Network(NetworkFailure::Transport(message))),
                }
            },
            Event::TabReady => {
                let payload = match self.payload.take() {
                    Some(p) => p,
                    None => String::new(),
                };
                self.tab_held = true;
                self.phase = Phase::Rendering;
                Step::Render { url: self.request.url.clone(), wait: wait_plan(&self.request), payload }
            },
            Event::Rendered { html } => {
                self.rendered = Some(Ok(html));
                self.phase = Phase::Parking;
                Step::ParkTab
            },
            Event::WaitTimedOut => {
                self.rendered = Some(Err(FetchError::NavigationTimeout));
                self.phase = Phase::Parking;
                Step::ParkTab
            },
            Event::RenderFailed { message } => {
                self.rendered = Some(Err(FetchError::Navigation(message)));
                self.phase = Phase::Parking;
                Step::ParkTab
            },
            Event::Parked => {
                let result = match self.rendered.take() {
                    Some(Ok(html)) => {
                        let doc = Document::parse(html);
                        let hit = is_blocked(&doc, self.request.is_blocked_elements.as_slice());
                        if hit {
                            Err(FetchError::BypassFailed)
                        } else {
                            Ok(doc.into_text())
                        }
                    },
                    Some(Err(e)) => Err(e),
                    None => Err(FetchError::BypassFailed),
                };
                self.tab_held = false;
                self.phase = Phase::Done;
                Step::Finish { release_tab: true, result }
            },
            Event::ParkFailed { message } => {
                let result = match self.rendered.take() {
                    Some(Err(e)) => Err(e),
                    _ => Err(FetchError::Navigation(message)),
                };
                self.tab_held = false;
                self.phase = Phase::Done;
                Step::Finish { release_tab: true, result }
            },
        }
    }

    /// Whether the session takes `e` in its current phase.
    pub fn accepts(&self, e: &Event) -> (r: bool)
        ensures
            r == self.spec_accepts(e),
    {
        match self.phase {
            Phase::Fetching => matches!(e, Event::Fetched { .. } | Event::FetchFailed { .. }),
            Phase::Acquiring => matches!(e, Event::TabReady),
            Phase::Rendering => matches!(e, Event::Rendered { .. } | Event::WaitTimedOut | Event::RenderFailed { .. }),
            Phase::Parking => matches!(e, Event::Parked | Event::ParkFailed { .. }),
            Phase::Done => false,
        }
    }
}

} // verus!

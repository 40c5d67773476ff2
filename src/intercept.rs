use vstd::prelude::*;
use base64::Engine;

verus! {

/// What kind of resource an intercepted request is for.
#[derive(Clone, Copy, Debug, PartialEq, Eq, Structural)]
pub enum ResourceType {
    Image,
    Stylesheet,
    Media,
    Font,
    Ping,
    Manifest,
    Document,
    Other,
}

impl ResourceType {
    /// Resources that a fallback render never downloads.
    pub open spec fn spec_is_skipped(self) -> bool {
        match self {
            ResourceType::Image | ResourceType::Stylesheet | ResourceType::Media
            | ResourceType::Font | ResourceType::Ping | ResourceType::Manifest => true,
            _ => false,
        }
    }

    /// Whether a fallback render skips this kind of resource.
    pub fn is_skipped(self) -> (r: bool)
        ensures
            r == self.spec_is_skipped(),
    {
        match self {
            ResourceType::Image | ResourceType::Stylesheet | ResourceType::Media
            | ResourceType::Font | ResourceType::Ping | ResourceType::Manifest => true,
            _ => false,
        }
    }
}

/// What to do with one intercepted request.
pub enum Decision {
    /// Let the request go out as it is.
    Continue,
    /// Fail the request with the reason "aborted".
    Abort,
    /// Answer the request with this response; `body` is base64.
    Fulfill { status: u16, headers: Vec<(String, String)>, body: String },
}

/// The standard base64 encoding (with padding) of the UTF-8 bytes of `text`.
pub uninterp spec fn base64_of(text: Seq<char>) -> Seq<char>;

/// Relies on base64's `BASE64_STANDARD.encode`: the padded standard-alphabet
/// encoding of the bytes it is given.
#[verifier::external_body]
fn encode_base64(text: &str) -> (r: String)
    ensures
        r@ == base64_of(text@),
{
    base64::engine::general_purpose::STANDARD.encode(text)
}

/// Whether `url` names an icon file.
pub open spec fn is_icon_url(url: Seq<char>) -> bool {
    url.len() >= 4 && url.subrange(url.len() - 4, url.len() as int) == seq!['.', 'i', 'c', 'o']
}

/// Whether `url` ends in `.ico`.
pub fn icon_url(url: &str) -> (r: bool)
    ensures
        r == is_icon_url(url@),
{
    let n = url.unicode_len();
    if n < 4 {
        return false;
    }
    let r = url.get_char(n - 4) == '.' && url.get_char(n - 3) == 'i'
        && url.get_char(n - 2) == 'c' && url.get_char(n - 1) == 'o';
    proof {
        let tail = url@.subrange(n - 4, n as int);
        if r {
            assert(tail =~= seq!['.', 'i', 'c', 'o']);
        } else {
            assert(tail[0] != '.' || tail[1] != 'i' || tail[2] != 'c' || tail[3] != 'o');
        }
    }
    r
}

/// Whether an intercepted request (its URL and kind) loads a page document.
pub open spec fn is_document_request(e: (Seq<char>, ResourceType)) -> bool {
    !is_icon_url(e.0) && e.1 == ResourceType::Document
}

/// For each request of `events` in turn, whether `Interceptor::decide` answers
/// it from the cache, starting from a state that holds a cached body or not
/// (`cached`) and has served it or not (`consumed`).
pub open spec fn served_flags(
    cached: bool,
    consumed: bool,
    events: Seq<(Seq<char>, ResourceType)>,
) -> Seq<bool>
    decreases events.len(),
{
    if events.len() == 0 {
        Seq::empty()
    } else {
        let served = is_document_request(events[0]) && cached && !consumed;
        seq![served] + served_flags(cached, consumed || served, events.drop_first())
    }
}

/// Once the cached body has been served, no later request is served from it.
pub proof fn lemma_consumed_serves_none(cached: bool, events: Seq<(Seq<char>, ResourceType)>)
    ensures
        served_flags(cached, true, events).len() == events.len(),
        forall|i: int| 0 <= i < events.len() ==> !#[trigger] served_flags(cached, true, events)[i],
    decreases events.len(),
{
    if events.len() > 0 {
        lemma_consumed_serves_none(cached, events.drop_first());
        let rest = served_flags(cached, true, events.drop_first());
        assert forall|i: int| 0 <= i < events.len() implies !#[trigger] served_flags(cached, true, events)[i] by {
            if i > 0 {
                assert(served_flags(cached, true, events)[i] == rest[i - 1]);
            }
        }
    }
}

/// Exactly-once fulfilment: with a cached body not yet served, the first
/// document request of a render is answered from the cache, and no other
/// request is.
pub proof fn lemma_served_exactly_once(events: Seq<(Seq<char>, ResourceType)>)
    ensures
        served_flags(true, false, events).len() == events.len(),
        forall|i: int| 0 <= i < events.len() ==> #[trigger] served_flags(true, false, events)[i] == (
            is_document_request(events[i]) && forall|j: int| 0 <= j < i ==> !is_document_request(#[trigger] events[j])),
    decreases events.len(),
{
    if events.len() > 0 {
        let rest = events.drop_first();
        let flags = served_flags(true, false, events);
        if is_document_request(events[0]) {
            lemma_consumed_serves_none(true, rest);
            assert forall|i: int| 0 <= i < events.len() implies #[trigger] flags[i] == (
                is_document_request(events[i]) && forall|j: int| 0 <= j < i ==> !is_document_request(#[trigger] events[j])) by {
                if i > 0 {
                    assert(flags[i] == served_flags(true, true, rest)[i - 1]);
                    assert(!(forall|j: int| 0 <= j < i ==> !is_document_request(#[trigger] events[j])));
                }
            }
        } else {
            lemma_served_exactly_once(rest);
            assert forall|i: int| 0 <= i < events.len() implies #[trigger] flags[i] == (
                is_document_request(events[i]) && forall|j: int| 0 <= j < i ==> !is_document_request(#[trigger] events[j])) by {
                if i > 0 {
                    assert(flags[i] == served_flags(true, false, rest)[i - 1]);
                    assert(events[i] == rest[i - 1]);
                    if forall|j: int| 0 <= j < i - 1 ==> !is_document_request(#[trigger] rest[j]) {
                        assert forall|j: int| 0 <= j < i implies !is_document_request(#[trigger] events[j]) by {
                            if j > 0 {
                                assert(events[j] == rest[j - 1]);
                            }
                        }
                    }
                    if forall|j: int| 0 <= j < i ==> !is_document_request(#[trigger] events[j]) {
                        assert forall|j: int| 0 <= j < i - 1 implies !is_document_request(#[trigger] rest[j]) by {
                            assert(events[j + 1] == rest[j]);
                        }
                    }
                }
            }
        }
    }
}

/// The per-render state of request interception: the page body fetched
/// directly, if any, and whether it has been served yet. It is served to at
/// most one document request.
pub struct Interceptor {
    payload: Option<String>,
    consumed: bool,
}

/// The headers of a response served from the cached body.
pub open spec fn html_headers(h: Seq<(String, String)>) -> bool {
    h.len() == 1 && h[0].0@ == "Content-Type"@ && h[0].1@ == "text/html"@
}

impl Interceptor {
    /// The cached page body.
    pub closed spec fn payload(&self) -> Option<Seq<char>> {
        match self.payload {
            Some(p) => Some(p@),
            None => None,
        }
    }

    /// Whether the cached body has been served.
    pub closed spec fn consumed(&self) -> bool {
        self.consumed
    }

    /// Whether a request for `url` of kind `kind` is answered from the cache.
    pub open spec fn fulfills(&self, url: Seq<char>, kind: ResourceType) -> bool {
        is_document_request((url, kind)) && self.payload() is Some && !self.consumed()
    }

    /// Whether a request for `url` of kind `kind` is aborted.
    pub open spec fn aborts(url: Seq<char>, kind: ResourceType) -> bool {
        !is_icon_url(url) && kind.spec_is_skipped()
    }

    /// A fresh state for one render, holding `payload` unserved.
    pub fn new(payload: Option<String>) -> (r: Interceptor)
        ensures
            r.payload() == (match payload {
                Some(p) => Some(p@),
                None => None::<Seq<char>>,
            }),
            !r.consumed(),
    {
        Interceptor { payload, consumed: false }
    }

    /// Whether the cached body has been served.
    pub fn is_consumed(&self) -> (r: bool)
        ensures
            r == self.consumed(),
    {
        self.consumed
    }

    /// Decides what happens to one intercepted request. Icons always go out;
    /// images, stylesheets, media, fonts, pings and manifests are aborted; the
    /// first document request is answered with the cached body; the rest go out.
    pub fn decide(&mut self, url: &str, kind: ResourceType) -> (d: Decision)
        ensures
            final(self).payload() == old(self).payload(),
            final(self).consumed() == (old(self).consumed() || old(self).fulfills(url@, kind)),
            is_icon_url(url@) ==> d is Continue,
            (d is Abort) == Self::aborts(url@, kind),
            (d is Fulfill) == old(self).fulfills(url@, kind),
            d matches Decision::Fulfill { status, headers, body } ==> {
                &&& status == 200
                &&& html_headers(headers@)
                &&& body@ == base64_of(old(self).payload()->0)
            },
    {
        if icon_url(url) {
            return Decision::Continue;
        }
        if kind.is_skipped() {
            return Decision::Abort;
        }
        match kind {
            ResourceType::Document => {
                if !self.consumed {
                    match &self.payload {
                        Some(p) => {
                            let body = encode_base64(p.as_str());
                            self.consumed = true;
                            let headers = vec![("Content-Type".to_owned(), "text/html".to_owned())];
                            return Decision::Fulfill { status: 200, headers, body };
                        },
                        None => {},
                    }
                }
                Decision::Continue
            },
            _ => Decision::Continue,
        }
    }
}

} // verus!

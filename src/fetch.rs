use vstd::prelude::*;
use vstd::string::*;

use crate::error::{joined, FetchError, FetchErrorView};
use crate::headers::{headers_view, translate_headers, translate_spec, url_host_of, Header};
use crate::json::{json_array_of, parse_json_array, OpaqueJsonArray};
use crate::link::{next_link, next_link_of};

verus! {

/// The upstream URL for an inbound path, which is forwarded verbatim.
pub open spec fn upstream_url_of(path: Seq<char>) -> Seq<char> {
    "https://api.github.com/"@ + path
}

pub fn upstream_url(path: &str) -> (r: String)
    ensures
        r@ == upstream_url_of(path@),
{
    joined("https://api.github.com/", path)
}

/// What the upstream sent back for one hop.
pub struct PageReply {
    pub status: u16,
    /// The body text, or why it could not be read.
    pub body: Result<String, String>,
    /// The `link` header as text, or why it is not text; `None` where the
    /// response has no `link` header.
    pub link: Option<Result<String, String>>,
}

/// The outcome of one upstream call.
pub enum HopEvent {
    /// The call itself failed to complete.
    Failed { detail: String },
    Replied(PageReply),
}

/// One upstream GET to issue.
pub struct HopRequest {
    pub url: String,
    pub headers: Vec<Header>,
}

/// What to do after a hop: issue another GET, or finish.
pub enum Hop {
    Get(HopRequest),
    Done(Result<OpaqueJsonArray, FetchError>),
}

pub enum HopView {
    Get { url: Seq<char>, headers: Seq<(Seq<char>, Seq<u8>)> },
    Done(Result<Seq<serde_json::Value>, FetchErrorView>),
}

impl Hop {
    pub open spec fn view(&self) -> HopView {
        match self {
            Hop::Get(req) => HopView::Get { url: req.url@, headers: headers_view(req.headers@) },
            Hop::Done(Ok(v)) => HopView::Done(Ok(v@)),
            Hop::Done(Err(e)) => HopView::Done(Err(e@)),
        }
    }
}

/// What a single page contributes.
pub enum PageOutcome {
    Failed(FetchErrorView),
    /// The last page, with its elements.
    Last(Seq<serde_json::Value>),
    /// A page with its elements and the target of its `next` link.
    Next(Seq<serde_json::Value>, Seq<char>),
}

pub open spec fn is_success(status: u16) -> bool {
    200 <= status <= 299
}

/// What one upstream call yields, in the order the checks are made: the
/// status, the body, the JSON array, then the `link` header.
pub open spec fn page_outcome(event: HopEvent) -> PageOutcome {
    match event {
        HopEvent::Failed { detail } => PageOutcome::Failed(FetchErrorView::Network { detail: detail@ }),
        HopEvent::Replied(reply) => if !is_success(reply.status) {
            PageOutcome::Failed(FetchErrorView::Upstream {
                status: reply.status,
                body: match reply.body {
                    Ok(t) => t@,
                    Err(d) => "Failed to read response body: "@ + d@,
                },
            })
        } else {
            match reply.body {
                Err(d) => PageOutcome::Failed(FetchErrorView::BodyUnreadable { detail: d@ }),
                Ok(text) => match json_array_of(text@) {
                    Err(d) => PageOutcome::Failed(FetchErrorView::Decode { body: text@, detail: d }),
                    Ok(values) => match reply.link {
                        None => PageOutcome::Last(values),
                        Some(Err(d)) => PageOutcome::Failed(FetchErrorView::LinkText { detail: d@ }),
                        Some(Ok(l)) => match next_link_of(l@) {
                            Err(d) => PageOutcome::Failed(FetchErrorView::LinkHeader { link: l@, detail: d }),
                            Ok(None) => PageOutcome::Last(values),
                            Ok(Some(u)) => PageOutcome::Next(values, u),
                        },
                    },
                },
            }
        },
    }
}

/// The next step of a fetch that has gathered `collected` so far and keeps
/// the inbound `headers` for every hop.
pub open spec fn hop_spec(
    headers: Seq<(Seq<char>, Seq<u8>)>,
    collected: Seq<serde_json::Value>,
    event: HopEvent,
) -> HopView {
    match page_outcome(event) {
        PageOutcome::Failed(e) => HopView::Done(Err(e)),
        PageOutcome::Last(v) => HopView::Done(Ok(collected + v)),
        PageOutcome::Next(_, u) => HopView::Get { url: u, headers: translate_spec(headers, url_host_of(u)) },
    }
}

/// The elements gathered after a hop. A fetch that reaches its last page
/// hands its elements out and keeps none.
pub open spec fn collected_after(collected: Seq<serde_json::Value>, event: HopEvent) -> Seq<serde_json::Value> {
    match page_outcome(event) {
        PageOutcome::Next(v, _) => collected + v,
        PageOutcome::Last(_) => Seq::empty(),
        PageOutcome::Failed(_) => collected,
    }
}

/// A fetch that follows `next` links page by page. Each hop is issued with
/// headers rewritten anew from the inbound ones, and the elements of the
/// pages are gathered in the order the pages came.
pub struct PageFetch {
    headers: Vec<Header>,
    collected: Vec<serde_json::Value>,
}

impl PageFetch {
    /// The inbound headers that every hop is derived from.
    pub closed spec fn inbound(&self) -> Seq<(Seq<char>, Seq<u8>)> {
        headers_view(self.headers@)
    }

    /// The elements gathered from the pages so far.
    pub closed spec fn collected(&self) -> Seq<serde_json::Value> {
        self.collected@
    }

    /// Starts a fetch of `url`, returning it with the first GET to issue.
    pub fn start(url: &str, headers: Vec<Header>) -> (r: (PageFetch, HopRequest))
        ensures
            r.0.inbound() == headers_view(headers@),
            r.0.collected() == Seq::<serde_json::Value>::empty(),
            r.1.url@ == url@,
            headers_view(r.1.headers@) == translate_spec(headers_view(headers@), url_host_of(url@)),
    {
        let outbound = translate_headers(&headers, url);
        (PageFetch { headers, collected: Vec::new() }, HopRequest { url: String::from_str(url), headers: outbound })
    }

    fn outcome_error(e: FetchError) -> (r: Hop)
        ensures
            r@ == HopView::Done(Err(e@)),
    {
        Hop::Done(Err(e))
    }

    /// Takes the outcome of the last GET and decides the next step.
    pub fn step(&mut self, event: HopEvent) -> (r: Hop)
        ensures
            r@ == hop_spec(old(self).inbound(), old(self).collected(), event),
            final(self).inbound() == old(self).inbound(),
            final(self).collected() == collected_after(old(self).collected(), event),
    {
        let ghost ev = event;
        let reply = match event {
            HopEvent::Failed { detail } => {
                return Self::outcome_error(FetchError::Network { detail });
            },
            HopEvent::Replied(reply) => reply,
        };
        if !(200 <= reply.status && reply.status <= 299) {
            let body = match reply.body {
                Ok(t) => t,
                Err(d) => joined("Failed to read response body: ", d.as_str()),
            };
            return Self::outcome_error(FetchError::Upstream { status: reply.status, body });
        }
        let text = match reply.body {
            Err(d) => {
                return Self::outcome_error(FetchError::BodyUnreadable { detail: d });
            },
            Ok(t) => t,
        };
        let values = match parse_json_array(text.as_str()) {
            Err(d) => {
                return Self::outcome_error(FetchError::Decode { body: text, detail: d });
            },
            Ok(v) => v,
        };
        let next = match reply.link {
            None => None,
            Some(Err(d)) => {
                return Self::outcome_error(FetchError::LinkText { detail: d });
            },
            Some(Ok(l)) => match next_link(l.as_str()) {
                Err(d) => {
                    return Self::outcome_error(FetchError::LinkHeader { link: l, detail: d });
                },
                Ok(n) => n,
            },
        };
        let mut values = values;
        let mut collected = Vec::new();
        std::mem::swap(&mut collected, &mut self.collected);
        collected.append(&mut values);
        match next {
            None => Hop::Done(Ok(OpaqueJsonArray { values: collected })),
            Some(u) => {
                self.collected = collected;
                let outbound = translate_headers(&self.headers, u.as_str());
                Hop::Get(HopRequest { url: u, headers: outbound })
            },
        }
    }
}

} // verus!

use vstd::prelude::*;

verus! {

/// Why a fetch failed. Every kind is terminal for the request it belongs to.
pub enum FetchError {
    /// The upstream answered with a status outside `200..=299`; `body` is its
    /// body, or a note that the body could not be read.
    Upstream { status: u16, body: String },
    /// The upstream call did not complete.
    Network { detail: String },
    /// A success response whose body could not be read.
    BodyUnreadable { detail: String },
    /// A success body that is not a JSON array.
    Decode { body: String, detail: String },
    /// A `link` header that is not text.
    LinkText { detail: String },
    /// A `link` header that does not parse as web links.
    LinkHeader { link: String, detail: String },
}

/// The mathematical form of a [`FetchError`].
pub enum FetchErrorView {
    Upstream { status: u16, body: Seq<char> },
    Network { detail: Seq<char> },
    BodyUnreadable { detail: Seq<char> },
    Decode { body: Seq<char>, detail: Seq<char> },
    LinkText { detail: Seq<char> },
    LinkHeader { link: Seq<char>, detail: Seq<char> },
}

impl FetchError {
    pub open spec fn view(&self) -> FetchErrorView {
        match self {
            FetchError::Upstream { status, body } => FetchErrorView::Upstream { status: *status, body: body@ },
            FetchError::Network { detail } => FetchErrorView::Network { detail: detail@ },
            FetchError::BodyUnreadable { detail } => FetchErrorView::BodyUnreadable { detail: detail@ },
            FetchError::Decode { body, detail } => FetchErrorView::Decode { body: body@, detail: detail@ },
            FetchError::LinkText { detail } => FetchErrorView::LinkText { detail: detail@ },
            FetchError::LinkHeader { link, detail } => FetchErrorView::LinkHeader { link: link@, detail: detail@ },
        }
    }
}

/// `a` followed by `b`.
pub fn joined(a: &str, b: &str) -> (r: String)
    ensures
        r@ == a@ + b@,
{
    let mut r = String::from_str(a);
    r.append(b);
    r
}

} // verus!

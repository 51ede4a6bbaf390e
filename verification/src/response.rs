//! The response that goes back to the caller, as plain values.

use crate::error::EmbedError;
use vstd::prelude::*;
use vstd::string::StringExecFns;

verus! {

/// An HTTP response: a status, a content type and a body.
#[derive(Debug, PartialEq, Eq)]
pub struct EmbedResponse {
    pub status: u16,
    pub content_type: String,
    pub body: String,
}

/// What an `EmbedResponse` holds, as plain text.
pub struct ResponseView {
    pub status: u16,
    pub content_type: Seq<char>,
    pub body: Seq<char>,
}

impl View for EmbedResponse {
    type V = ResponseView;

    open spec fn view(&self) -> ResponseView {
        ResponseView { status: self.status, content_type: self.content_type@, body: self.body@ }
    }
}

impl ResponseView {
    /// The response that delivers `body`: status 200, `text/html`.
    pub open spec fn ok(body: Seq<char>) -> ResponseView {
        ResponseView { status: 200, content_type: "text/html"@, body }
    }

    /// The response that reports the failure `e`: its status, `text/plain`,
    /// and its fixed text, which holds nothing of the key or of any token.
    pub open spec fn error(e: EmbedError) -> ResponseView {
        ResponseView { status: e.status(), content_type: "text/plain"@, body: e.text() }
    }
}

impl EmbedResponse {
    /// The response that delivers `body` with status 200 as `text/html`.
    pub fn ok(body: String) -> (r: EmbedResponse)
        ensures
            r@ == ResponseView::ok(body@),
    {
        EmbedResponse { status: 200, content_type: String::from_str("text/html"), body }
    }

    /// The response that reports the failure `e`.
    pub fn error(e: EmbedError) -> (r: EmbedResponse)
        ensures
            r@ == ResponseView::error(e),
            r@.status != 200,
    {
        EmbedResponse {
            status: e.status_code(),
            content_type: String::from_str("text/plain"),
            body: e.message(),
        }
    }
}

} // verus!

//! The rendered response: what the HTTP layer needs in order to answer.

use vstd::prelude::*;

verus! {

/// An HTTP response in plain values.
#[derive(Clone, Debug)]
pub struct Response {
    /// The HTTP status code.
    pub status: u16,
    /// The value of the `Content-Type` header.
    pub content_type: String,
    /// The body, a JSON text.
    pub body: String,
    /// The entry owed to the log: present exactly when the body could not be
    /// encoded and the fallback body stands in its place.
    pub diagnostic: Option<String>,
}

/// The mathematical value of a [`Response`].
pub struct ResponseView {
    pub status: nat,
    pub content_type: Seq<char>,
    pub body: Seq<char>,
    pub diagnostic: Option<Seq<char>>,
}

impl View for Response {
    type V = ResponseView;

    open spec fn view(&self) -> ResponseView {
        ResponseView {
            status: self.status as nat,
            content_type: self.content_type@,
            body: self.body@,
            diagnostic: match self.diagnostic {
                Some(entry) => Some(entry@),
                None => None,
            },
        }
    }
}

/// The content type of every response: `application/json`.
pub open spec fn json_content_type() -> Seq<char> {
    "application/json"@
}

/// The body that stands in when the body proper could not be encoded.
pub open spec fn fallback_body() -> Seq<char> {
    "{\"code\":500000,\"err\":\"internal server error\"}"@
}

/// The words that open the log entry on a body that could not be encoded; the
/// encoder's description of the failure follows them.
pub open spec fn diagnostic_prefix() -> Seq<char> {
    "error occurred when generating error response: "@
}

/// The response with status `status` for the outcome `encoded` of encoding
/// the body: the encoded text, or the encoder's description of its failure.
///
/// The status and the content type do not depend on the outcome. On failure
/// the body is [`fallback_body`], and the log is owed the description behind
/// [`diagnostic_prefix`].
pub open spec fn response_for(status: nat, encoded: Result<Seq<char>, Seq<char>>) -> ResponseView {
    ResponseView {
        status,
        content_type: json_content_type(),
        body: match encoded {
            Ok(text) => text,
            Err(_) => fallback_body(),
        },
        diagnostic: match encoded {
            Ok(_) => None,
            Err(detail) => Some(diagnostic_prefix() + detail),
        },
    }
}

} // verus!

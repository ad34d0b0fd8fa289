//! The error taxonomy and its rendering.

use vstd::prelude::*;
use crate::hcaptcha::HcaptchaError;
use crate::json::{
    decimal, is_plain, lemma_record_injective, quoted, record, record_text, string_literal,
    string_literal_text, EncodeError,
};
use crate::response::{fallback_body, json_content_type, response_for, Response, ResponseView};

verus! {

/// The failure type of `sqlx`. A value of it is wrapped and carried; nothing
/// is read from it.
#[verifier::external_type_specification]
#[verifier::external_body]
pub struct ExSqlxError(sqlx::Error);

/// Every failure that can become a response. The set is closed: a failure of
/// a subsystem reaches a response only as one of these.
#[derive(Debug)]
pub enum ErrorKind {
    /// A failure of the persistence layer. Its cause is kept and never shown.
    Sqlx(sqlx::Error),
    /// A rejected human-verification check. Its reason is shown as it is.
    Hcaptcha(HcaptchaError),
}

/// The mathematical value of an [`ErrorKind`]: all that classification and
/// rendering depend on.
pub enum ErrorKindView {
    /// A server-side failure of storage, whatever its cause.
    Storage,
    /// A rejected challenge, with the reason it displays.
    ChallengeRejected(Seq<char>),
}

/// The wire record of an error: what the response body carries.
#[derive(Clone, Debug)]
pub struct ErrorDisplay {
    /// The stable identifier of the failure category.
    pub code: u64,
    /// The message for the end user.
    pub err: String,
}

/// The mathematical value of an [`ErrorDisplay`].
pub struct ErrorDisplayView {
    pub code: nat,
    pub err: Seq<char>,
}

impl View for ErrorDisplay {
    type V = ErrorDisplayView;

    open spec fn view(&self) -> ErrorDisplayView {
        ErrorDisplayView { code: self.code as nat, err: self.err@ }
    }
}

impl View for ErrorKind {
    type V = ErrorKindView;

    open spec fn view(&self) -> ErrorKindView {
        match self {
            ErrorKind::Sqlx(_) => ErrorKindView::Storage,
            ErrorKind::Hcaptcha(cause) => ErrorKindView::ChallengeRejected(cause@),
        }
    }
}

/// The message shown for every storage failure.
pub open spec fn database_error_msg() -> Seq<char> {
    "database error"@
}

impl ErrorDisplayView {
    /// The JSON text of the record, or `None` where the message has no
    /// string literal.
    pub open spec fn json(self) -> Option<Seq<char>> {
        match string_literal(self.err) {
            Some(literal) => Some(record(self.code, literal)),
            None => None,
        }
    }
}

impl ErrorKindView {
    /// The code of the category: 510000 for storage, 410000 for a rejected
    /// challenge.
    pub open spec fn code(self) -> nat {
        match self {
            ErrorKindView::Storage => 510000,
            ErrorKindView::ChallengeRejected(_) => 410000,
        }
    }

    /// The message for the end user: a fixed text for storage, the displayed
    /// reason for a rejected challenge.
    pub open spec fn user_msg(self) -> Seq<char> {
        match self {
            ErrorKindView::Storage => database_error_msg(),
            ErrorKindView::ChallengeRejected(reason) => reason,
        }
    }

    /// The HTTP status: 500 for storage, 403 for a rejected challenge.
    pub open spec fn status_code(self) -> nat {
        match self {
            ErrorKindView::Storage => 500,
            ErrorKindView::ChallengeRejected(_) => 403,
        }
    }

    /// The wire record: the code and the message.
    pub open spec fn display(self) -> ErrorDisplayView {
        ErrorDisplayView { code: self.code(), err: self.user_msg() }
    }

    /// The body of the response: the JSON text of the wire record, or the
    /// fallback body where there is none.
    pub open spec fn body(self) -> Seq<char> {
        match self.display().json() {
            Some(text) => text,
            None => fallback_body(),
        }
    }

    /// Holds of the responses that rendering may give for this error.
    ///
    /// Where the wire record has a JSON text, there is one such response: the
    /// text is its body and nothing is owed to the log. Where it has none, the
    /// fallback body stands in, and only the encoder's description of its
    /// failure, which ends the log entry, is left open.
    pub open spec fn renders(self, response: ResponseView) -> bool {
        match self.display().json() {
            Some(text) => response == response_for(self.status_code(), Ok(text)),
            None => exists|detail: Seq<char>|
                response == response_for(self.status_code(), Err(detail)),
        }
    }
}

impl From<sqlx::Error> for ErrorKind {
    /// Wraps a failure of the persistence layer, whole.
    fn from(cause: sqlx::Error) -> (kind: ErrorKind) {
        ErrorKind::Sqlx(cause)
    }
}

impl vstd::std_specs::convert::FromSpecImpl<sqlx::Error> for ErrorKind {
    open spec fn obeys_from_spec() -> bool {
        true
    }

    open spec fn from_spec(cause: sqlx::Error) -> ErrorKind {
        ErrorKind::Sqlx(cause)
    }
}

impl From<HcaptchaError> for ErrorKind {
    /// Wraps a failure of the human-verification step, whole.
    fn from(cause: HcaptchaError) -> (kind: ErrorKind) {
        ErrorKind::Hcaptcha(cause)
    }
}

impl vstd::std_specs::convert::FromSpecImpl<HcaptchaError> for ErrorKind {
    open spec fn obeys_from_spec() -> bool {
        true
    }

    open spec fn from_spec(cause: HcaptchaError) -> ErrorKind {
        ErrorKind::Hcaptcha(cause)
    }
}

impl ErrorDisplay {
    /// Encodes the record as JSON: `{"code":<code>,"err":<literal of err>}`.
    ///
    /// It succeeds exactly when the message has a string literal, which every
    /// plain message has.
    pub fn to_json(&self) -> (r: Result<String, EncodeError>)
        ensures
            match self@.json() {
                Some(text) => r matches Ok(body) && body@ == text,
                None => r is Err,
            },
    {
        match string_literal_text(self.err.as_str()) {
            Ok(literal) => Ok(record_text(self.code, literal.as_str())),
            Err(e) => Err(e),
        }
    }
}

impl ErrorKind {
    /// The stable numeric code of the failure category.
    pub fn code(&self) -> (code: u64)
        ensures
            code == self@.code(),
    {
        match self {
            ErrorKind::Sqlx(_) => 510000u64,
            ErrorKind::Hcaptcha(_) => 410000u64,
        }
    }

    /// The message for the end user. A storage failure shows nothing of its
    /// cause; a rejected challenge shows its reason unchanged.
    pub fn user_msg(&self) -> (msg: String)
        ensures
            msg@ == self@.user_msg(),
    {
        match self {
            ErrorKind::Sqlx(_) => String::from_str("database error"),
            ErrorKind::Hcaptcha(cause) => cause.to_string(),
        }
    }

    /// The wire record of the error.
    pub fn as_display(&self) -> (display: ErrorDisplay)
        ensures
            display@ == self@.display(),
    {
        ErrorDisplay { code: self.code(), err: self.user_msg() }
    }

    /// The HTTP status of the response.
    pub fn status_code(&self) -> (status: u16)
        ensures
            status == self@.status_code(),
    {
        match self {
            ErrorKind::Sqlx(_) => 500u16,
            ErrorKind::Hcaptcha(_) => 403u16,
        }
    }

    /// Renders the response for a given outcome of encoding the body.
    ///
    /// The status is that of the error whatever the outcome. An encoded text
    /// becomes the body; a failure puts the fallback body in its place and
    /// leaves an entry for the log.
    pub fn respond_with(&self, encoded: Result<String, EncodeError>) -> (response: Response)
        ensures
            response@ == response_for(
                self@.status_code(),
                match encoded {
                    Ok(text) => Ok(text@),
                    Err(e) => Err(e@),
                },
            ),
    {
        let status = self.status_code();
        let content_type = String::from_str("application/json");
        match encoded {
            Ok(body) => Response { status, content_type, body, diagnostic: None },
            Err(e) => {
                let mut entry = String::from_str("error occurred when generating error response: ");
                entry.append(e.detail.as_str());
                Response {
                    status,
                    content_type,
                    body: String::from_str("{\"code\":500000,\"err\":\"internal server error\"}"),
                    diagnostic: Some(entry),
                }
            },
        }
    }

    /// Renders the error into a complete response. It always produces one.
    ///
    /// The status is [`ErrorKindView::status_code`], the content type is
    /// `application/json`, and the body is [`ErrorKindView::body`]: the JSON text of the
    /// wire record, or the fallback body where the record could not be
    /// encoded. In that case, and in no other, an entry for the log is left.
    pub fn error_response(&self) -> (response: Response)
        ensures
            self@.renders(response@),
            response@.status == self@.status_code(),
            response@.content_type == json_content_type(),
            response@.body == self@.body(),
            response@.diagnostic is Some <==> self@.display().json() is None,
    {
        let encoded = self.as_display().to_json();
        self.respond_with(encoded)
    }
}

/// Classification looks at the variant alone: two errors of the same
/// variant have the same code and the same status, whatever they wrap. Two
/// calls on one error therefore agree.
pub proof fn lemma_classification_by_variant(a: ErrorKind, b: ErrorKind)
    requires
        a is Sqlx <==> b is Sqlx,
    ensures
        a@.code() == b@.code(),
        a@.status_code() == b@.status_code(),
{
}

/// The code tells the variant: no two variants share a code, and neither
/// code is the one in the fallback body.
pub proof fn lemma_code_identifies_variant(a: ErrorKind, b: ErrorKind)
    ensures
        a@.code() == 510000 <==> a is Sqlx,
        a@.code() == 410000 <==> a is Hcaptcha,
        a@.code() == b@.code() ==> (a is Sqlx <==> b is Sqlx),
        a@.code() != 500000,
{
}

/// The decimal notation of the three codes that occur in a body.
pub proof fn lemma_code_digits()
    ensures
        decimal(510000) == "510000"@,
        decimal(410000) == "410000"@,
        decimal(500000) == "500000"@,
{
    reveal_strlit("0123456789");
    reveal_strlit("510000");
    reveal_strlit("410000");
    reveal_strlit("500000");
    reveal_with_fuel(decimal, 6);
    assert(decimal(510000) =~= "510000"@);
    assert(decimal(410000) =~= "410000"@);
    assert(decimal(500000) =~= "500000"@);
}

/// A storage failure has one response, whatever its cause: status 500,
/// content type `application/json`, the body
/// `{"code":510000,"err":"database error"}`, and nothing for the log.
pub proof fn lemma_storage_response(e: ErrorKind, response: ResponseView)
    requires
        e is Sqlx,
        e@.renders(response),
    ensures
        response.status == 500,
        response.content_type == "application/json"@,
        response.body == "{\"code\":510000,\"err\":\"database error\"}"@,
        response.diagnostic is None,
        e@.body() == response.body,
{
    reveal_strlit("database error");
    reveal_strlit("{\"code\":");
    reveal_strlit(",\"err\":");
    reveal_strlit("}");
    reveal_strlit("510000");
    reveal_strlit("{\"code\":510000,\"err\":\"database error\"}");
    lemma_code_digits();
    assert(is_plain(database_error_msg()));
    assert(record(510000, quoted(database_error_msg()))
        =~= "{\"code\":510000,\"err\":\"database error\"}"@);
}

/// A rejected challenge answers with status 403 and content type
/// `application/json`. Where its reason has a string literal, the body is the
/// record of 410000 and of that literal, and nothing is owed to the log. A
/// plain reason `X` has one, so the body is `{"code":410000,"err":"X"}` with
/// the reason in it unchanged.
pub proof fn lemma_challenge_response(e: ErrorKind, reason: Seq<char>, response: ResponseView)
    requires
        e@ == ErrorKindView::ChallengeRejected(reason),
        e@.renders(response),
    ensures
        response.status == 403,
        response.content_type == "application/json"@,
        string_literal(reason) matches Some(literal) ==> response.body == record(410000, literal)
            && response.diagnostic is None,
        is_plain(reason) ==> response.body == "{\"code\":410000,\"err\":\""@ + reason + "\"}"@,
{
    if is_plain(reason) {
        reveal_strlit("{\"code\":");
        reveal_strlit(",\"err\":");
        reveal_strlit("}");
        reveal_strlit("410000");
        reveal_strlit("{\"code\":410000,\"err\":\"");
        reveal_strlit("\"}");
        lemma_code_digits();
        assert(record(410000, quoted(reason))
            =~= "{\"code\":410000,\"err\":\""@ + reason + "\"}"@);
    }
}

/// When the body cannot be encoded, the response keeps the status of the
/// error, carries the fallback body
/// `{"code":500000,"err":"internal server error"}` and leaves an entry for
/// the log that ends in the encoder's description of the failure.
pub proof fn lemma_fallback_response(e: ErrorKind, detail: Seq<char>)
    ensures
        response_for(e@.status_code(), Err(detail)).status == e@.status_code(),
        response_for(e@.status_code(), Err(detail)).content_type == "application/json"@,
        response_for(e@.status_code(), Err(detail)).body
            == "{\"code\":500000,\"err\":\"internal server error\"}"@,
        response_for(e@.status_code(), Err(detail)).diagnostic == Some(
            "error occurred when generating error response: "@ + detail,
        ),
        e@.display().json() is None ==> forall|response: ResponseView| #[trigger]
            e@.renders(response) ==> response.status == e@.status_code() && response.body
                == fallback_body(),
{
}

/// The JSON text tells the record, among the records with a plain message:
/// two of them with the same text have the same code and the same message. So
/// what a reader takes from a body is the record that was written.
pub proof fn lemma_json_injective(a: ErrorDisplayView, b: ErrorDisplayView)
    requires
        is_plain(a.err),
        is_plain(b.err),
        a.json() == b.json(),
    ensures
        a == b,
{
    lemma_record_injective(a.code, quoted(a.err), b.code, quoted(b.err));
    assert(a.err =~= quoted(a.err).subrange(1, a.err.len() as int + 1));
    assert(b.err =~= quoted(b.err).subrange(1, b.err.len() as int + 1));
}

/// The fallback body has the shape of every other body: it is the record of
/// the code 500000 and of the message `internal server error`.
pub proof fn lemma_fallback_is_a_record()
    ensures
        is_plain("internal server error"@),
        fallback_body() == record(500000, quoted("internal server error"@)),
{
    reveal_strlit("internal server error");
    reveal_strlit("{\"code\":");
    reveal_strlit(",\"err\":");
    reveal_strlit("}");
    reveal_strlit("500000");
    reveal_strlit("{\"code\":500000,\"err\":\"internal server error\"}");
    lemma_code_digits();
    assert(fallback_body() =~= record(500000, quoted("internal server error"@)));
}

} // verus!

//! What a callback answers, and the flat form in which the native side takes
//! the answer.

use vstd::prelude::*;

verus! {

/// Why a resource request failed.
///
/// On the native side a reason is one byte, which [`FsErrorReason::as_u8`]
/// gives. The byte `0` is none of them: it means that there was no error.
#[derive(Debug, Clone, Copy, PartialEq, Eq, Structural)]
pub enum FsErrorReason {
    /// Resource not found at the requested URL.
    NotFound,
    /// Server-side error (5xx, etc.).
    Server,
    /// Transport-level connection failure.
    Connection,
    /// Rate-limit response.
    RateLimit,
    /// Any other error.
    Other,
}

/// The byte that means "no error" where a reason is expected.
pub const NO_ERROR: u8 = 0;

/// The byte that stands for `reason` on the native side.
pub open spec fn reason_code(reason: FsErrorReason) -> u8 {
    match reason {
        FsErrorReason::NotFound => 2,
        FsErrorReason::Server => 3,
        FsErrorReason::Connection => 4,
        FsErrorReason::RateLimit => 5,
        FsErrorReason::Other => 6,
    }
}

impl FsErrorReason {
    /// The byte that stands for this reason on the native side.
    pub fn as_u8(self) -> (code: u8)
        ensures
            code == reason_code(self),
            2 <= code <= 6,
            self is NotFound <==> code == 2,
            self is Server <==> code == 3,
            self is Connection <==> code == 4,
            self is RateLimit <==> code == 5,
            self is Other <==> code == 6,
    {
        match self {
            FsErrorReason::NotFound => 2,
            FsErrorReason::Server => 3,
            FsErrorReason::Connection => 4,
            FsErrorReason::RateLimit => 5,
            FsErrorReason::Other => 6,
        }
    }
}

/// Answer to a resource request.
#[derive(Debug)]
pub enum FsResponse {
    /// Request succeeded; bytes are the raw resource body.
    Success(Vec<u8>),
    /// Request was a well-formed miss (e.g. a tile that is not present at this
    /// z/x/y): no error and no body. Overzoomed tiles should use this rather
    /// than [`FsResponse::Error`].
    NoContent,
    /// Request failed.
    Error {
        /// Category of failure.
        reason: FsErrorReason,
        /// Human-readable message for logging.
        message: String,
    },
}

/// What an [`FsResponse`] says.
#[verifier::ext_equal]
pub enum FsResponseView {
    Success(Seq<u8>),
    NoContent,
    Error { reason: FsErrorReason, message: Seq<char> },
}

impl View for FsResponse {
    type V = FsResponseView;

    open spec fn view(&self) -> FsResponseView {
        match self {
            FsResponse::Success(bytes) => FsResponseView::Success(bytes@),
            FsResponse::NoContent => FsResponseView::NoContent,
            FsResponse::Error { reason, message } => FsResponseView::Error {
                reason: *reason,
                message: message@,
            },
        }
    }
}

/// The flat form of an answer: every field is there in every case.
#[derive(Debug)]
pub struct RustFsResponse {
    /// The body, empty unless the request succeeded.
    pub data: Vec<u8>,
    /// The byte of the error reason, or [`NO_ERROR`].
    pub error_reason: u8,
    /// The error message, empty unless the request failed.
    pub error_message: String,
    /// Whether the request was a well-formed miss.
    pub no_content: bool,
}

/// What a [`RustFsResponse`] holds.
#[verifier::ext_equal]
pub struct RustFsResponseView {
    pub data: Seq<u8>,
    pub error_reason: u8,
    pub error_message: Seq<char>,
    pub no_content: bool,
}

impl View for RustFsResponse {
    type V = RustFsResponseView;

    open spec fn view(&self) -> RustFsResponseView {
        RustFsResponseView {
            data: self.data@,
            error_reason: self.error_reason,
            error_message: self.error_message@,
            no_content: self.no_content,
        }
    }
}

/// The flat form of `response`.
pub open spec fn wire_form(response: FsResponseView) -> RustFsResponseView {
    RustFsResponseView {
        data: match response {
            FsResponseView::Success(bytes) => bytes,
            _ => Seq::empty(),
        },
        error_reason: match response {
            FsResponseView::Error { reason, .. } => reason_code(reason),
            _ => NO_ERROR,
        },
        error_message: match response {
            FsResponseView::Error { message, .. } => message,
            _ => Seq::empty(),
        },
        no_content: response is NoContent,
    }
}

/// Flattens an answer for the native side.
pub fn ffi_response(r: FsResponse) -> (wire: RustFsResponse)
    ensures
        wire@ == wire_form(r@),
        r matches FsResponse::Success(bytes) ==> wire.data@ == bytes@ && wire.error_reason == 0
            && wire.error_message@.len() == 0 && !wire.no_content,
        r is NoContent ==> wire.data@.len() == 0 && wire.error_reason == 0
            && wire.error_message@.len() == 0 && wire.no_content,
        r matches FsResponse::Error { reason, message } ==> wire.data@.len() == 0
            && wire.error_reason == (match reason {
            FsErrorReason::NotFound => 2u8,
            FsErrorReason::Server => 3u8,
            FsErrorReason::Connection => 4u8,
            FsErrorReason::RateLimit => 5u8,
            FsErrorReason::Other => 6u8,
        }) && wire.error_message@ == message@ && !wire.no_content,
{
    match r {
        FsResponse::Success(bytes) => RustFsResponse {
            data: bytes,
            error_reason: NO_ERROR,
            error_message: String::new(),
            no_content: false,
        },
        FsResponse::NoContent => RustFsResponse {
            data: Vec::new(),
            error_reason: NO_ERROR,
            error_message: String::new(),
            no_content: true,
        },
        FsResponse::Error { reason, message } => RustFsResponse {
            data: Vec::new(),
            error_reason: reason.as_u8(),
            error_message: message,
            no_content: false,
        },
    }
}

/// Which byte stands for which reason, for every reason.
pub proof fn lemma_bytes_of_reasons(reason: FsErrorReason)
    ensures
        reason is NotFound <==> reason_code(reason) == 2,
        reason is Server <==> reason_code(reason) == 3,
        reason is Connection <==> reason_code(reason) == 4,
        reason is RateLimit <==> reason_code(reason) == 5,
        reason is Other <==> reason_code(reason) == 6,
{
}

/// A body reaches the native side byte for byte, with no error and no message.
pub proof fn lemma_body_arrives_unchanged(bytes: Vec<u8>, wire: RustFsResponse)
    requires
        wire@ == wire_form(FsResponse::Success(bytes)@),
    ensures
        wire.data@ == bytes@,
        wire.error_reason == 0,
        wire.error_message@.len() == 0,
        !wire.no_content,
{
}

/// A miss reaches the native side as the miss flag and nothing else.
pub proof fn lemma_miss_arrives_as_the_flag_alone(wire: RustFsResponse)
    requires
        wire@ == wire_form(FsResponse::NoContent@),
    ensures
        wire.data@.len() == 0,
        wire.error_reason == 0,
        wire.error_message@.len() == 0,
        wire.no_content,
{
}

/// An error reaches the native side with the byte of its reason and its message,
/// character for character.
pub proof fn lemma_error_arrives_unchanged(
    reason: FsErrorReason,
    message: String,
    wire: RustFsResponse,
)
    requires
        wire@ == wire_form((FsResponse::Error { reason, message })@),
    ensures
        wire.data@.len() == 0,
        wire.error_message@ == message@,
        !wire.no_content,
        reason is NotFound <==> wire.error_reason == 2,
        reason is Server <==> wire.error_reason == 3,
        reason is Connection <==> wire.error_reason == 4,
        reason is RateLimit <==> wire.error_reason == 5,
        reason is Other <==> wire.error_reason == 6,
{
}

/// The flat form keeps the body, or the reason and the message, of an answer.
pub proof fn lemma_wire_form_keeps_the_answer(
    bytes: Seq<u8>,
    reason: FsErrorReason,
    message: Seq<char>,
)
    ensures
        wire_form(FsResponseView::Success(bytes)).data == bytes,
        wire_form(FsResponseView::Error { reason, message }).error_message == message,
        reason is NotFound <==> wire_form(
            FsResponseView::Error { reason, message },
        ).error_reason == 2,
        reason is Server <==> wire_form(
            FsResponseView::Error { reason, message },
        ).error_reason == 3,
        reason is Connection <==> wire_form(
            FsResponseView::Error { reason, message },
        ).error_reason == 4,
        reason is RateLimit <==> wire_form(
            FsResponseView::Error { reason, message },
        ).error_reason == 5,
        reason is Other <==> wire_form(
            FsResponseView::Error { reason, message },
        ).error_reason == 6,
{
}

/// No two reasons share a byte.
pub proof fn lemma_reason_code_injective(a: FsErrorReason, b: FsErrorReason)
    requires
        reason_code(a) == reason_code(b),
    ensures
        a == b,
{
}

/// The byte of a reason is never the one that means "no error", nor the one
/// after it, by which the native side reports a success.
pub proof fn lemma_reason_code_reports_a_failure(reason: FsErrorReason)
    ensures
        reason_code(reason) != NO_ERROR,
        reason_code(reason) != 1,
        2 <= reason_code(reason) <= 6,
{
}

/// The flat form tells the three answers apart: it carries an error reason
/// exactly for an error, and the miss flag exactly for a miss.
pub proof fn lemma_wire_form_tells_answers_apart(response: FsResponseView)
    ensures
        wire_form(response).error_reason != NO_ERROR <==> response is Error,
        wire_form(response).no_content <==> response is NoContent,
        response is Success <==> wire_form(response).error_reason == NO_ERROR && !wire_form(
            response,
        ).no_content,
{
}

/// A miss has no body and no error; an error has no body; a success has no
/// message.
pub proof fn lemma_wire_form_leaves_the_rest_empty(response: FsResponseView)
    ensures
        response !is Success ==> wire_form(response).data.len() == 0,
        response !is Error ==> wire_form(response).error_message.len() == 0,
{
}

/// Nothing of an answer is lost in its flat form: answers with the same flat
/// form are the same answer.
pub proof fn lemma_wire_form_injective(a: FsResponseView, b: FsResponseView)
    requires
        wire_form(a) == wire_form(b),
    ensures
        a == b,
{
    lemma_wire_form_tells_answers_apart(a);
    lemma_wire_form_tells_answers_apart(b);
}

} // verus!

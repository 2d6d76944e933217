//! Decisions of a callback that serves resources from disk and over HTTP.
//!
//! The reading itself is done elsewhere: [`fetch_step`] says what to read next,
//! and what the fetch came to in the end, and [`resource_response`] what to
//! answer.

use vstd::prelude::*;
use vstd::string::StringExecFns;

use crate::response::{wire_form, FsErrorReason, FsResponse, FsResponseView};

verus! {

/// [`str::strip_prefix`]: what follows `prefix` in `text`, or nothing where
/// `text` does not start with `prefix`.
#[verifier::external_body]
fn strip_prefix<'a>(text: &'a str, prefix: &str) -> (rest: Option<&'a str>)
    ensures
        rest is Some <==> prefix@.is_prefix_of(text@),
        rest matches Some(r) ==> r@ == text@.skip(prefix@.len() as int),
{
    text.strip_prefix(prefix)
}

/// Where the bytes behind a URL are.
#[derive(Debug)]
pub enum FetchPlan {
    /// In the file at this path.
    File(String),
    /// At a server that is asked for the URL.
    Http,
    /// Out of reach: the URL has another scheme.
    Unsupported,
}

/// What a [`FetchPlan`] says.
pub enum FetchPlanView {
    File(Seq<char>),
    Http,
    Unsupported,
}

impl View for FetchPlan {
    type V = FetchPlanView;

    open spec fn view(&self) -> FetchPlanView {
        match self {
            FetchPlan::File(path) => FetchPlanView::File(path@),
            FetchPlan::Http => FetchPlanView::Http,
            FetchPlan::Unsupported => FetchPlanView::Unsupported,
        }
    }
}

/// Where the bytes behind `url` are. A `file://` URL is followed by the path of
/// the file.
pub open spec fn plan_of(url: Seq<char>) -> FetchPlanView {
    if "file://"@.is_prefix_of(url) {
        FetchPlanView::File(url.skip("file://"@.len() as int))
    } else if "http://"@.is_prefix_of(url) || "https://"@.is_prefix_of(url) {
        FetchPlanView::Http
    } else {
        FetchPlanView::Unsupported
    }
}

/// Decides by the scheme of `url` where its bytes are.
pub fn plan_fetch(url: &str) -> (plan: FetchPlan)
    ensures
        plan@ == plan_of(url@),
        plan is File <==> "file://"@.is_prefix_of(url@),
        plan matches FetchPlan::File(path) ==> "file://"@ + path@ == url@,
        plan is Http <==> "http://"@.is_prefix_of(url@) || "https://"@.is_prefix_of(url@),
{
    proof {
        lemma_plan_follows_the_scheme(url@);
    }
    match strip_prefix(url, "file://") {
        Some(path) => FetchPlan::File(path.to_owned()),
        None => {
            if strip_prefix(url, "http://").is_some() || strip_prefix(url, "https://").is_some() {
                FetchPlan::Http
            } else {
                FetchPlan::Unsupported
            }
        },
    }
}

/// Why a resource could not be fetched. The texts are those of the causes.
#[derive(Debug)]
pub enum FetchError {
    /// The server could not be asked, or its answer not be read.
    Request(String),
    /// The server refused, with this status.
    Status(String),
    /// The file could not be read.
    Io(String),
    /// The URL, whose scheme is not one that can be fetched.
    UnsupportedScheme(String),
}

/// What a [`FetchError`] says.
pub enum FetchErrorView {
    Request(Seq<char>),
    Status(Seq<char>),
    Io(Seq<char>),
    UnsupportedScheme(Seq<char>),
}

impl View for FetchError {
    type V = FetchErrorView;

    open spec fn view(&self) -> FetchErrorView {
        match self {
            FetchError::Request(text) => FetchErrorView::Request(text@),
            FetchError::Status(text) => FetchErrorView::Status(text@),
            FetchError::Io(text) => FetchErrorView::Io(text@),
            FetchError::UnsupportedScheme(url) => FetchErrorView::UnsupportedScheme(url@),
        }
    }
}

/// The message of an error: what failed, then the cause.
pub open spec fn error_message(error: FetchErrorView) -> Seq<char> {
    match error {
        FetchErrorView::Request(text) => "request: "@ + text,
        FetchErrorView::Status(text) => "status: "@ + text,
        FetchErrorView::Io(text) => "io: "@ + text,
        FetchErrorView::UnsupportedScheme(url) => "unsupported scheme: "@ + url,
    }
}

impl FetchError {
    /// The message of this error.
    pub fn message(&self) -> (message: String)
        ensures
            message@ == error_message(self@),
            self matches FetchError::Request(text) ==> message@ == "request: "@ + text@,
            self matches FetchError::Status(text) ==> message@ == "status: "@ + text@,
            self matches FetchError::Io(text) ==> message@ == "io: "@ + text@,
            self matches FetchError::UnsupportedScheme(url) ==> message@ == "unsupported scheme: "@
                + url@,
    {
        match self {
            FetchError::Request(text) => String::from_str("request: ").concat(text.as_str()),
            FetchError::Status(text) => String::from_str("status: ").concat(text.as_str()),
            FetchError::Io(text) => String::from_str("io: ").concat(text.as_str()),
            FetchError::UnsupportedScheme(url) => String::from_str("unsupported scheme: ").concat(
                url.as_str(),
            ),
        }
    }
}

/// What reading a file came to.
#[derive(Debug)]
pub enum FileRead {
    /// The contents of the file.
    Contents(Vec<u8>),
    /// There is no such file.
    Missing,
    /// The file could not be read, for this reason.
    Failed(String),
}

/// What a fetch came to: a body, a miss, or an error.
pub enum OutcomeView {
    Body(Seq<u8>),
    Miss,
    Failure(FetchErrorView),
}

/// What `outcome` says. `Ok(None)` is a miss.
pub open spec fn outcome_view(outcome: Result<Option<Vec<u8>>, FetchError>) -> OutcomeView {
    match outcome {
        Ok(Some(bytes)) => OutcomeView::Body(bytes@),
        Ok(None) => OutcomeView::Miss,
        Err(error) => OutcomeView::Failure(error@),
    }
}

/// What a [`FileRead`] says.
pub enum FileReadView {
    Contents(Seq<u8>),
    Missing,
    Failed(Seq<char>),
}

impl View for FileRead {
    type V = FileReadView;

    open spec fn view(&self) -> FileReadView {
        match self {
            FileRead::Contents(bytes) => FileReadView::Contents(bytes@),
            FileRead::Missing => FileReadView::Missing,
            FileRead::Failed(text) => FileReadView::Failed(text@),
        }
    }
}

/// What a fetch from disk came to: a file that is not there is a miss.
pub open spec fn file_outcome_of(read: FileReadView) -> OutcomeView {
    match read {
        FileReadView::Contents(bytes) => OutcomeView::Body(bytes),
        FileReadView::Missing => OutcomeView::Miss,
        FileReadView::Failed(text) => OutcomeView::Failure(FetchErrorView::Io(text)),
    }
}

/// Tells what reading a file means for the fetch.
pub fn file_outcome(read: FileRead) -> (outcome: Result<Option<Vec<u8>>, FetchError>)
    ensures
        outcome_view(outcome) == file_outcome_of(read@),
        read matches FileRead::Contents(contents) ==> (outcome matches Ok(Some(bytes)) && bytes@
            == contents@),
        read is Missing ==> outcome == Ok::<Option<Vec<u8>>, FetchError>(None),
        read matches FileRead::Failed(cause) ==> (outcome matches Err(FetchError::Io(text))
            && text@ == cause@),
{
    match read {
        FileRead::Contents(bytes) => Ok(Some(bytes)),
        FileRead::Missing => Ok(None),
        FileRead::Failed(text) => Err(FetchError::Io(text)),
    }
}

/// Whether `status` reports a success.
pub open spec fn is_success(status: u16) -> bool {
    200 <= status <= 299
}

/// What a fetch over HTTP comes to where the server answers with `status`, which
/// reads `text` and is no success: `404` is a miss, and all others are refusals.
pub open spec fn refusal_of(status: u16, text: Seq<char>) -> OutcomeView {
    if status == 404 {
        OutcomeView::Miss
    } else {
        OutcomeView::Failure(FetchErrorView::Status(text))
    }
}

/// Decides by its status what to do about a server's answer, before its body is
/// read: nothing is decided yet where the answer is a success, and the body is
/// to be read; else it is not wanted. `text` is the status as text, with its
/// reason phrase.
pub fn http_head(status: u16, text: String) -> (decided: Option<
    Result<Option<Vec<u8>>, FetchError>,
>)
    ensures
        decided is None <==> is_success(status),
        decided matches Some(outcome) ==> outcome_view(outcome) == refusal_of(status, text@),
        decided is None <==> 200 <= status < 300,
        decided == Some(Ok::<Option<Vec<u8>>, FetchError>(None)) <==> status == 404,
        status < 200 || (300 <= status && status != 404) ==> (decided matches Some(
            Err(FetchError::Status(cause)),
        ) && cause@ == text@),
{
    if status == 404 {
        return Some(Ok(None));
    }
    if status < 200 || status > 299 {
        return Some(Err(FetchError::Status(text)));
    }
    None
}

/// What `read` says: bytes, or the text of why there are none.
pub open spec fn read_view(read: Result<Vec<u8>, String>) -> Result<Seq<u8>, Seq<char>> {
    match read {
        Ok(bytes) => Ok(bytes@),
        Err(text) => Err(text@),
    }
}

/// What a fetch over HTTP came to where the server was to be asked, and the body
/// of its answer to be read.
pub open spec fn http_outcome_of(read: Result<Seq<u8>, Seq<char>>) -> OutcomeView {
    match read {
        Ok(bytes) => OutcomeView::Body(bytes),
        Err(text) => OutcomeView::Failure(FetchErrorView::Request(text)),
    }
}

/// Tells what asking a server, or reading the body of its answer, means for the
/// fetch. An error is the text of why there was no answer, or no body.
pub fn http_outcome(read: Result<Vec<u8>, String>) -> (outcome: Result<
    Option<Vec<u8>>,
    FetchError,
>)
    ensures
        outcome_view(outcome) == http_outcome_of(read_view(read)),
        read matches Ok(body) ==> (outcome matches Ok(Some(bytes)) && bytes@ == body@),
        read matches Err(cause) ==> (outcome matches Err(FetchError::Request(text)) && text@
            == cause@),
{
    match read {
        Ok(bytes) => Ok(Some(bytes)),
        Err(text) => Err(FetchError::Request(text)),
    }
}

/// What a fetch of `url` comes to where its scheme is not one that can be
/// fetched.
pub fn unsupported_outcome(url: &str) -> (outcome: Result<Option<Vec<u8>>, FetchError>)
    ensures
        outcome_view(outcome) == OutcomeView::Failure(FetchErrorView::UnsupportedScheme(url@)),
        outcome matches Err(FetchError::UnsupportedScheme(text)) && text@ == url@,
{
    Err(FetchError::UnsupportedScheme(url.to_owned()))
}

/// The answer to a request whose fetch came to `outcome`.
pub open spec fn answer_of(outcome: OutcomeView) -> FsResponseView {
    match outcome {
        OutcomeView::Body(bytes) => FsResponseView::Success(bytes),
        OutcomeView::Miss => FsResponseView::NoContent,
        OutcomeView::Failure(error) => FsResponseView::Error {
            reason: FsErrorReason::Other,
            message: error_message(error),
        },
    }
}

/// Answers a request with what its fetch came to.
pub fn resource_response(outcome: Result<Option<Vec<u8>>, FetchError>) -> (response: FsResponse)
    ensures
        response@ == answer_of(outcome_view(outcome)),
        outcome matches Ok(Some(body)) ==> (response matches FsResponse::Success(bytes) && bytes@
            == body@),
        outcome matches Ok(None) ==> response is NoContent,
        outcome matches Err(error) ==> (response matches FsResponse::Error { reason, message }
            && reason is Other && message@ == (match error {
            FetchError::Request(text) => "request: "@ + text@,
            FetchError::Status(text) => "status: "@ + text@,
            FetchError::Io(text) => "io: "@ + text@,
            FetchError::UnsupportedScheme(url) => "unsupported scheme: "@ + url@,
        })),
{
    match outcome {
        Ok(Some(bytes)) => FsResponse::Success(bytes),
        Ok(None) => FsResponse::NoContent,
        Err(error) => FsResponse::Error {
            reason: FsErrorReason::Other,
            message: error.message(),
        },
    }
}

/// What there is to read behind a URL: the file, the status of the server's
/// answer or why there is none, and the body of that answer or why there is none.
/// Only what the URL and the status call for is read.
pub struct Readings {
    pub file: FileReadView,
    pub answer: Result<(u16, Seq<char>), Seq<char>>,
    pub body: Result<Seq<u8>, Seq<char>>,
}

/// What the whole fetch of `url` comes to where `readings` is what there is to
/// read.
pub open spec fn fetch_of(url: Seq<char>, readings: Readings) -> OutcomeView {
    match plan_of(url) {
        FetchPlanView::File(_) => file_outcome_of(readings.file),
        FetchPlanView::Http => match readings.answer {
            Err(text) => http_outcome_of(Err(text)),
            Ok((status, text)) => if is_success(status) {
                http_outcome_of(readings.body)
            } else {
                refusal_of(status, text)
            },
        },
        FetchPlanView::Unsupported => OutcomeView::Failure(FetchErrorView::UnsupportedScheme(url)),
    }
}

/// What happened last in a fetch.
#[derive(Debug)]
pub enum FetchEvent {
    /// The fetch was asked for.
    Start,
    /// The file was read.
    File(FileRead),
    /// The server did not answer, for this reason.
    NoAnswer(String),
    /// The server answered with this status, which reads `text`.
    Head { status: u16, text: String },
    /// The body of the answer was read.
    Body(Result<Vec<u8>, String>),
}

/// What a fetch has to do next.
#[derive(Debug)]
pub enum FetchStep {
    /// Read the file at this path.
    ReadFile(String),
    /// Ask the server for the URL.
    AskServer,
    /// Read the body of the server's answer.
    ReadBody,
    /// Nothing: this is what the fetch came to.
    Done(Result<Option<Vec<u8>>, FetchError>),
}

/// What a [`FetchEvent`] says.
pub enum FetchEventView {
    Start,
    File(FileReadView),
    NoAnswer(Seq<char>),
    Head { status: u16, text: Seq<char> },
    Body(Result<Seq<u8>, Seq<char>>),
}

/// What a [`FetchStep`] says.
pub enum FetchStepView {
    ReadFile(Seq<char>),
    AskServer,
    ReadBody,
    Done(OutcomeView),
}

impl View for FetchEvent {
    type V = FetchEventView;

    open spec fn view(&self) -> FetchEventView {
        match self {
            FetchEvent::Start => FetchEventView::Start,
            FetchEvent::File(read) => FetchEventView::File(read@),
            FetchEvent::NoAnswer(text) => FetchEventView::NoAnswer(text@),
            FetchEvent::Head { status, text } => FetchEventView::Head {
                status: *status,
                text: text@,
            },
            FetchEvent::Body(read) => FetchEventView::Body(read_view(*read)),
        }
    }
}

impl View for FetchStep {
    type V = FetchStepView;

    open spec fn view(&self) -> FetchStepView {
        match self {
            FetchStep::ReadFile(path) => FetchStepView::ReadFile(path@),
            FetchStep::AskServer => FetchStepView::AskServer,
            FetchStep::ReadBody => FetchStepView::ReadBody,
            FetchStep::Done(outcome) => FetchStepView::Done(outcome_view(*outcome)),
        }
    }
}

/// What is read for `step`, where `readings` is what there is to read.
pub open spec fn event_after(step: FetchStepView, readings: Readings) -> FetchEventView {
    match step {
        FetchStepView::ReadFile(_) => FetchEventView::File(readings.file),
        FetchStepView::AskServer => match readings.answer {
            Err(text) => FetchEventView::NoAnswer(text),
            Ok((status, text)) => FetchEventView::Head { status, text },
        },
        FetchStepView::ReadBody => FetchEventView::Body(readings.body),
        FetchStepView::Done(_) => FetchEventView::Start,
    }
}

/// What the fetch of `url` has to do after `event`.
pub open spec fn step_of(url: Seq<char>, event: FetchEventView) -> FetchStepView {
    match event {
        FetchEventView::Start => match plan_of(url) {
            FetchPlanView::File(path) => FetchStepView::ReadFile(path),
            FetchPlanView::Http => FetchStepView::AskServer,
            FetchPlanView::Unsupported => FetchStepView::Done(
                OutcomeView::Failure(FetchErrorView::UnsupportedScheme(url)),
            ),
        },
        FetchEventView::File(read) => FetchStepView::Done(file_outcome_of(read)),
        FetchEventView::NoAnswer(text) => FetchStepView::Done(http_outcome_of(Err(text))),
        FetchEventView::Head { status, text } => if is_success(status) {
            FetchStepView::ReadBody
        } else {
            FetchStepView::Done(refusal_of(status, text))
        },
        FetchEventView::Body(read) => FetchStepView::Done(http_outcome_of(read)),
    }
}

/// Whether `event` may come up in the fetch of `url` where `readings` is what
/// there is to read.
pub open spec fn comes_up(url: Seq<char>, event: FetchEventView, readings: Readings) -> bool {
    match event {
        FetchEventView::Start => true,
        FetchEventView::File(read) => plan_of(url) is File && read == readings.file,
        FetchEventView::NoAnswer(text) => plan_of(url) is Http && readings.answer
            == Err::<(u16, Seq<char>), Seq<char>>(text),
        FetchEventView::Head { status, text } => plan_of(url) is Http && readings.answer
            == Ok::<(u16, Seq<char>), Seq<char>>((status, text)),
        FetchEventView::Body(read) => plan_of(url) is Http && (readings.answer matches Ok(head)
            && is_success(head.0)) && read == readings.body,
    }
}

/// Decides what the fetch of `url` has to do after `event`. Where it is done, the
/// outcome is that of the whole fetch.
pub fn fetch_step(url: &str, event: FetchEvent) -> (step: FetchStep)
    ensures
        step@ == step_of(url@, event@),
        step@ matches FetchStepView::Done(outcome) ==> forall|readings: Readings| #[trigger]
            comes_up(url@, event@, readings) ==> outcome == fetch_of(url@, readings),
        event is Start && "file://"@.is_prefix_of(url@) ==> (step matches FetchStep::ReadFile(path)
            && "file://"@ + path@ == url@),
        event is Start && ("http://"@.is_prefix_of(url@) || "https://"@.is_prefix_of(url@)) ==> step
            is AskServer,
        event is Start && !"file://"@.is_prefix_of(url@) && !"http://"@.is_prefix_of(url@)
            && !"https://"@.is_prefix_of(url@) ==> (step matches FetchStep::Done(
            Err(FetchError::UnsupportedScheme(text)),
        ) && text@ == url@),
        event matches FetchEvent::File(FileRead::Contents(contents)) ==> (
        step matches FetchStep::Done(Ok(Some(bytes))) && bytes@ == contents@),
        event matches FetchEvent::File(FileRead::Missing) ==> step matches FetchStep::Done(
            Ok(None),
        ),
        event matches FetchEvent::File(FileRead::Failed(cause)) ==> (step matches FetchStep::Done(
            Err(FetchError::Io(text)),
        ) && text@ == cause@),
        event matches FetchEvent::NoAnswer(cause) ==> (step matches FetchStep::Done(
            Err(FetchError::Request(text)),
        ) && text@ == cause@),
        event matches FetchEvent::Head { status, .. } ==> (step is ReadBody <==> 200 <= status
            < 300),
        event matches FetchEvent::Head { status, .. } ==> (status == 404
            ==> step matches FetchStep::Done(Ok(None))),
        event matches FetchEvent::Head { status, text } ==> (!(200 <= status < 300) && status != 404
            ==> (step matches FetchStep::Done(Err(FetchError::Status(cause))) && cause@ == text@)),
        event matches FetchEvent::Body(Ok(body)) ==> (step matches FetchStep::Done(Ok(Some(bytes)))
            && bytes@ == body@),
        event matches FetchEvent::Body(Err(cause)) ==> (step matches FetchStep::Done(
            Err(FetchError::Request(text)),
        ) && text@ == cause@),
{
    proof {
        lemma_schemes_are_disjoint(url@);
        lemma_plan_follows_the_scheme(url@);
    }
    match event {
        FetchEvent::Start => match plan_fetch(url) {
            FetchPlan::File(path) => FetchStep::ReadFile(path),
            FetchPlan::Http => FetchStep::AskServer,
            FetchPlan::Unsupported => FetchStep::Done(unsupported_outcome(url)),
        },
        FetchEvent::File(read) => FetchStep::Done(file_outcome(read)),
        FetchEvent::NoAnswer(text) => FetchStep::Done(http_outcome(Err(text))),
        FetchEvent::Head { status, text } => match http_head(status, text) {
            Some(outcome) => FetchStep::Done(outcome),
            None => FetchStep::ReadBody,
        },
        FetchEvent::Body(read) => FetchStep::Done(http_outcome(read)),
    }
}

/// A resource that is not there is answered as a miss, never as an error,
/// whether it is a file or at a server.
pub proof fn lemma_missing_resources_are_misses(text: Seq<char>)
    ensures
        answer_of(file_outcome_of(FileReadView::Missing)) is NoContent,
        !is_success(404),
        answer_of(refusal_of(404, text)) is NoContent,
{
}

/// The state of a fetch of `url` after `steps` steps, where `readings` is what
/// there is to read and each step reads what the one before asked for.
pub open spec fn step_after(url: Seq<char>, readings: Readings, steps: nat) -> FetchStepView
    decreases steps,
{
    if steps == 0 {
        step_of(url, FetchEventView::Start)
    } else {
        step_of(url, event_after(step_after(url, readings, (steps - 1) as nat), readings))
    }
}

/// Taken step by step, a fetch reads at most twice and then comes to what the
/// whole fetch of its URL comes to. Every event on the way is one that comes up.
pub proof fn lemma_steps_come_to_the_outcome(url: Seq<char>, readings: Readings)
    ensures
        exists|steps: nat|
            steps <= 2 && #[trigger] step_after(url, readings, steps) == FetchStepView::Done(
                fetch_of(url, readings),
            ) && forall|earlier: nat|
                earlier < steps ==> !(#[trigger] step_after(url, readings, earlier) is Done)
                    && comes_up(
                    url,
                    event_after(step_after(url, readings, earlier), readings),
                    readings,
                ),
{
    let start = step_after(url, readings, 0);
    let second = step_after(url, readings, 1);
    let third = step_after(url, readings, 2);
    assert(start == step_of(url, FetchEventView::Start));
    assert(second == step_of(url, event_after(start, readings)));
    assert(third == step_of(url, event_after(second, readings)));
}

/// The scheme of a URL decides what is read: a `file://` URL is a file, whose path
/// is the rest of the URL; an `http://` or `https://` URL is at a server; all
/// others are out of reach.
pub proof fn lemma_plan_follows_the_scheme(url: Seq<char>)
    ensures
        plan_of(url) is File <==> "file://"@.is_prefix_of(url),
        plan_of(url) matches FetchPlanView::File(path) ==> "file://"@ + path == url,
        plan_of(url) is Http <==> "http://"@.is_prefix_of(url) || "https://"@.is_prefix_of(url),
        plan_of(url) is Unsupported <==> !"file://"@.is_prefix_of(url) && !"http://"@.is_prefix_of(
            url,
        ) && !"https://"@.is_prefix_of(url),
{
    lemma_schemes_are_disjoint(url);
    if "file://"@.is_prefix_of(url) {
        assert("file://"@ + url.skip("file://"@.len() as int) =~= url);
    }
}

/// Whatever follows `http://` or `https://`, the server is asked for it.
pub proof fn lemma_http_urls_are_asked_for(rest: Seq<char>)
    ensures
        plan_of("http://"@ + rest) is Http,
        plan_of("https://"@ + rest) is Http,
{
    let plain = "http://"@ + rest;
    let secure = "https://"@ + rest;
    assert("http://"@.is_prefix_of(plain));
    assert("https://"@.is_prefix_of(secure));
    lemma_plan_follows_the_scheme(plain);
    lemma_plan_follows_the_scheme(secure);
}

/// A file that was read comes to exactly its contents, and is answered with them.
pub proof fn lemma_file_comes_to_its_contents(url: Seq<char>, readings: Readings, bytes: Seq<u8>)
    requires
        "file://"@.is_prefix_of(url),
        readings.file == FileReadView::Contents(bytes),
    ensures
        fetch_of(url, readings) == OutcomeView::Body(bytes),
        answer_of(fetch_of(url, readings)) == FsResponseView::Success(bytes),
        wire_form(answer_of(fetch_of(url, readings))).data == bytes,
{
}

/// An answer with a success status whose body was read comes to exactly that body,
/// and is answered with it.
pub proof fn lemma_http_success_comes_to_its_body(
    url: Seq<char>,
    readings: Readings,
    status: u16,
    text: Seq<char>,
    bytes: Seq<u8>,
)
    requires
        "http://"@.is_prefix_of(url) || "https://"@.is_prefix_of(url),
        200 <= status <= 299,
        readings.answer == Ok::<(u16, Seq<char>), Seq<char>>((status, text)),
        readings.body == Ok::<Seq<u8>, Seq<char>>(bytes),
    ensures
        fetch_of(url, readings) == OutcomeView::Body(bytes),
        answer_of(fetch_of(url, readings)) == FsResponseView::Success(bytes),
        wire_form(answer_of(fetch_of(url, readings))).data == bytes,
{
    lemma_plan_follows_the_scheme(url);
}

/// A fetch comes to a miss exactly where the file is missing, or the server
/// answers with the status 404.
pub proof fn lemma_when_a_fetch_is_a_miss(url: Seq<char>, readings: Readings)
    ensures
        fetch_of(url, readings) is Miss <==> {
            ||| "file://"@.is_prefix_of(url) && readings.file is Missing
            ||| ("http://"@.is_prefix_of(url) || "https://"@.is_prefix_of(url)) && (
            readings.answer matches Ok(head) && head.0 == 404)
        },
        answer_of(fetch_of(url, readings)) is NoContent <==> fetch_of(url, readings) is Miss,
{
    lemma_schemes_are_disjoint(url);
    lemma_plan_follows_the_scheme(url);
}

/// A fetch has a body exactly where there is one to read: that of the file, or that
/// of an answer with a success status. It is that one.
pub proof fn lemma_when_a_fetch_has_a_body(url: Seq<char>, readings: Readings, bytes: Seq<u8>)
    ensures
        fetch_of(url, readings) == OutcomeView::Body(bytes) <==> {
            ||| "file://"@.is_prefix_of(url) && readings.file == FileReadView::Contents(bytes)
            ||| ("http://"@.is_prefix_of(url) || "https://"@.is_prefix_of(url)) && (
            readings.answer matches Ok(head) && 200 <= head.0 <= 299) && readings.body == Ok::<
                Seq<u8>,
                Seq<char>,
            >(bytes)
        },
{
    lemma_schemes_are_disjoint(url);
    lemma_plan_follows_the_scheme(url);
}

/// What a fetch that fails is answered with: an error of the reason "other" whose
/// message says what failed, and then the cause as it was given.
pub proof fn lemma_failures_are_answered_with_their_cause(url: Seq<char>, readings: Readings)
    ensures
        "file://"@.is_prefix_of(url) && readings.file is Failed ==> answer_of(
            fetch_of(url, readings),
        ) == (FsResponseView::Error {
            reason: FsErrorReason::Other,
            message: "io: "@ + readings.file->Failed_0,
        }),
        ("http://"@.is_prefix_of(url) || "https://"@.is_prefix_of(url)) && readings.answer is Err
            ==> answer_of(fetch_of(url, readings)) == (FsResponseView::Error {
            reason: FsErrorReason::Other,
            message: "request: "@ + readings.answer->Err_0,
        }),
        ("http://"@.is_prefix_of(url) || "https://"@.is_prefix_of(url)) && (
        readings.answer matches Ok(head) && !(200 <= head.0 <= 299) && head.0 != 404) ==> answer_of(
            fetch_of(url, readings),
        ) == (FsResponseView::Error {
            reason: FsErrorReason::Other,
            message: "status: "@ + readings.answer->Ok_0.1,
        }),
        ("http://"@.is_prefix_of(url) || "https://"@.is_prefix_of(url)) && (
        readings.answer matches Ok(head) && 200 <= head.0 <= 299) && readings.body is Err
            ==> answer_of(fetch_of(url, readings)) == (FsResponseView::Error {
            reason: FsErrorReason::Other,
            message: "request: "@ + readings.body->Err_0,
        }),
        !"file://"@.is_prefix_of(url) && !"http://"@.is_prefix_of(url)
            && !"https://"@.is_prefix_of(url) ==> answer_of(fetch_of(url, readings)) == (
        FsResponseView::Error {
            reason: FsErrorReason::Other,
            message: "unsupported scheme: "@ + url,
        }),
{
    lemma_schemes_are_disjoint(url);
    lemma_plan_follows_the_scheme(url);
}

/// What a file's reading, a server's refusal and a body's reading come to, each
/// taken by itself.
pub proof fn lemma_readings_come_to_what_was_read(
    bytes: Seq<u8>,
    cause: Seq<char>,
    status: u16,
)
    ensures
        file_outcome_of(FileReadView::Contents(bytes)) == OutcomeView::Body(bytes),
        file_outcome_of(FileReadView::Missing) is Miss,
        file_outcome_of(FileReadView::Failed(cause)) == OutcomeView::Failure(
            FetchErrorView::Io(cause),
        ),
        http_outcome_of(Ok(bytes)) == OutcomeView::Body(bytes),
        http_outcome_of(Err(cause)) == OutcomeView::Failure(FetchErrorView::Request(cause)),
        is_success(status) <==> 200 <= status < 300,
        status == 404 ==> refusal_of(status, cause) is Miss,
        status != 404 ==> refusal_of(status, cause) == OutcomeView::Failure(
            FetchErrorView::Status(cause),
        ),
{
}

/// What an outcome is answered with: its body byte for byte, a miss as a miss, and
/// a failure as an error of the reason "other" that names its cause.
pub proof fn lemma_outcomes_are_answered_as_they_are(
    body: Vec<u8>,
    error: FetchError,
    text: Seq<char>,
)
    ensures
        answer_of(outcome_view(Ok(Some(body)))) == FsResponseView::Success(body@),
        answer_of(outcome_view(Ok(None))) is NoContent,
        error matches FetchError::Request(cause) ==> answer_of(outcome_view(Err(error))) == (
        FsResponseView::Error { reason: FsErrorReason::Other, message: "request: "@ + cause@ }),
        error matches FetchError::Status(cause) ==> answer_of(outcome_view(Err(error))) == (
        FsResponseView::Error { reason: FsErrorReason::Other, message: "status: "@ + cause@ }),
        error matches FetchError::Io(cause) ==> answer_of(outcome_view(Err(error))) == (
        FsResponseView::Error { reason: FsErrorReason::Other, message: "io: "@ + cause@ }),
        error matches FetchError::UnsupportedScheme(url) ==> answer_of(outcome_view(Err(error)))
            == (FsResponseView::Error {
            reason: FsErrorReason::Other,
            message: "unsupported scheme: "@ + url@,
        }),
        error_message(FetchErrorView::Request(text)) == "request: "@ + text,
        error_message(FetchErrorView::Status(text)) == "status: "@ + text,
        error_message(FetchErrorView::Io(text)) == "io: "@ + text,
        error_message(FetchErrorView::UnsupportedScheme(text)) == "unsupported scheme: "@ + text,
{
}

/// What a fetch does next: it reads the file at the path that follows `file://`,
/// asks the server for an `http://` or `https://` URL, reads the body of an answer
/// exactly where its status is a success, and is else done.
pub proof fn lemma_what_is_read_next(url: Seq<char>, event: FetchEventView)
    ensures
        event is Start && "file://"@.is_prefix_of(url) ==> (step_of(
            url,
            event,
        ) matches FetchStepView::ReadFile(path) && "file://"@ + path == url),
        event is Start && ("http://"@.is_prefix_of(url) || "https://"@.is_prefix_of(url))
            ==> step_of(url, event) is AskServer,
        event is Start && !"file://"@.is_prefix_of(url) && !"http://"@.is_prefix_of(url)
            && !"https://"@.is_prefix_of(url) ==> step_of(url, event) is Done,
        event matches FetchEventView::Head { status, .. } ==> (step_of(url, event) is ReadBody
            <==> 200 <= status < 300),
        event matches FetchEventView::Head { status, .. } ==> (step_of(url, event) is Done <==> !(200
            <= status < 300)),
        event is File || event is NoAnswer || event is Body ==> step_of(url, event) is Done,
{
    lemma_schemes_are_disjoint(url);
    lemma_plan_follows_the_scheme(url);
}

/// The scheme of a URL decides alone: no URL is both a file and at a server.
pub proof fn lemma_schemes_are_disjoint(url: Seq<char>)
    ensures
        !("file://"@.is_prefix_of(url) && "http://"@.is_prefix_of(url)),
        !("file://"@.is_prefix_of(url) && "https://"@.is_prefix_of(url)),
        !("http://"@.is_prefix_of(url) && "https://"@.is_prefix_of(url)),
{
    reveal_strlit("file://");
    reveal_strlit("http://");
    reveal_strlit("https://");
    assert("file://"@.is_prefix_of(url) ==> url[0] == url.subrange(0, 7)[0]);
    assert("http://"@.is_prefix_of(url) ==> url[0] == url.subrange(0, 7)[0] && url[4]
        == url.subrange(0, 7)[4]);
    assert("https://"@.is_prefix_of(url) ==> url[0] == url.subrange(0, 8)[0] && url[4]
        == url.subrange(0, 8)[4]);
}

/// A `file://` URL is planned as the path that follows the scheme, whatever the
/// path.
pub proof fn lemma_file_urls_keep_their_path(path: Seq<char>)
    ensures
        plan_of("file://"@ + path) == FetchPlanView::File(path),
{
    let url = "file://"@ + path;
    assert("file://"@.is_prefix_of(url));
    assert(url.skip("file://"@.len() as int) == path);
}

} // verus!

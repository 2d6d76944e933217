//! The callback that serves resource requests, and the entry points through
//! which the native side calls it.
//!
//! The URL scheme is not looked at here: the callback owns scheme dispatch
//! (`mbtiles://`, `file://`, custom).

use std::future::Future;

use tokio::runtime::Handle;
use tokio::task::JoinHandle;
use vstd::future::FutureAdditionalSpecFns;
use vstd::prelude::*;
use vstd::string::StringExecFns;

use crate::resource::{kind_of_code, ResourceKind};
use crate::response::{
    ffi_response, wire_form, FsResponse, RustFsResponse, RustFsResponseView,
};
use crate::runtime::{spawn, spawned_on};

verus! {

/// A closure that answers a request in place.
trait SyncClosure: Send + Sync {
    /// Whether the closure may be called with these arguments.
    spec fn accepts(&self, url: &str, kind: ResourceKind) -> bool;

    /// Whether the closure may answer `response` when called with these
    /// arguments.
    spec fn may_return(&self, url: &str, kind: ResourceKind, response: FsResponse) -> bool;

    fn invoke(&self, url: &str, kind: ResourceKind) -> (response: FsResponse)
        requires
            self.accepts(url, kind),
        ensures
            self.may_return(url, kind, response),
    ;
}

impl<F> SyncClosure for F where F: Fn(&str, ResourceKind) -> FsResponse + Send + Sync {
    spec fn accepts(&self, url: &str, kind: ResourceKind) -> bool {
        call_requires(*self, (url, kind))
    }

    spec fn may_return(&self, url: &str, kind: ResourceKind, response: FsResponse) -> bool {
        call_ensures(*self, (url, kind), response)
    }

    fn invoke(&self, url: &str, kind: ResourceKind) -> (response: FsResponse) {
        self(url, kind)
    }
}

/// A closure that answers a request with a future.
trait AsyncClosure<Fut>: Send + Sync {
    /// Whether the closure may be called with these arguments.
    spec fn accepts(&self, url: String, kind: ResourceKind) -> bool;

    /// Whether the closure may give the future `future` when called with these
    /// arguments.
    spec fn may_return(&self, url: String, kind: ResourceKind, future: Fut) -> bool;

    fn invoke(&self, url: String, kind: ResourceKind) -> (future: Fut)
        requires
            self.accepts(url, kind),
        ensures
            self.may_return(url, kind, future),
    ;
}

impl<F, Fut> AsyncClosure<Fut> for F where F: Fn(String, ResourceKind) -> Fut + Send + Sync {
    spec fn accepts(&self, url: String, kind: ResourceKind) -> bool {
        call_requires(*self, (url, kind))
    }

    spec fn may_return(&self, url: String, kind: ResourceKind, future: Fut) -> bool {
        call_ensures(*self, (url, kind), future)
    }

    fn invoke(&self, url: String, kind: ResourceKind) -> (future: Fut) {
        self(url, kind)
    }
}

/// A stored closure that answers a request in place. The type of the closure is
/// forgotten; what it accepts and returns is not.
pub struct SyncCallback {
    closure: Box<dyn SyncClosure>,
}

impl SyncCallback {
    /// Whether the closure may be called with these arguments.
    pub closed spec fn accepts(self, url: &str, kind: ResourceKind) -> bool {
        self.closure.accepts(url, kind)
    }

    /// Whether the closure may answer `response` when called with these
    /// arguments.
    pub closed spec fn may_return(self, url: &str, kind: ResourceKind, response: FsResponse) -> bool {
        self.closure.may_return(url, kind, response)
    }

    /// Whether this is the closure `callback`: it accepts the same arguments,
    /// and gives the same answers to them.
    pub open spec fn wraps<F>(self, callback: F) -> bool where
        F: Fn(&str, ResourceKind) -> FsResponse,
     {
        &&& forall|url: &str, kind: ResourceKind| #[trigger]
            self.accepts(url, kind) == call_requires(callback, (url, kind))
        &&& forall|url: &str, kind: ResourceKind, response: FsResponse| #[trigger]
            self.may_return(url, kind, response) == call_ensures(callback, (url, kind), response)
    }

    pub(crate) fn new<F>(callback: F) -> (stored: Self) where
        F: Fn(&str, ResourceKind) -> FsResponse + Send + Sync + 'static,

        ensures
            stored.wraps(callback),
    {
        SyncCallback { closure: Box::new(callback) }
    }

    fn invoke(&self, url: &str, kind: ResourceKind) -> (response: FsResponse)
        requires
            self.accepts(url, kind),
        ensures
            self.may_return(url, kind, response),
    {
        self.closure.invoke(url, kind)
    }
}

/// A stored closure that answers a request with a future of type `Fut`. The
/// type of the closure is forgotten; what it accepts and returns is not.
#[verifier::reject_recursive_types(Fut)]
pub struct AsyncCallback<Fut> {
    closure: Box<dyn AsyncClosure<Fut>>,
}

impl<Fut> AsyncCallback<Fut> {
    /// Whether the closure may be called with these arguments.
    pub closed spec fn accepts(self, url: String, kind: ResourceKind) -> bool {
        self.closure.accepts(url, kind)
    }

    /// Whether the closure may give the future `future` when called with these
    /// arguments.
    pub closed spec fn may_return(self, url: String, kind: ResourceKind, future: Fut) -> bool {
        self.closure.may_return(url, kind, future)
    }

    /// Whether this is the closure `callback`: it accepts the same arguments,
    /// and gives the same futures for them.
    pub open spec fn wraps<F>(self, callback: F) -> bool where F: Fn(String, ResourceKind) -> Fut {
        &&& forall|url: String, kind: ResourceKind| #[trigger]
            self.accepts(url, kind) == call_requires(callback, (url, kind))
        &&& forall|url: String, kind: ResourceKind, future: Fut| #[trigger]
            self.may_return(url, kind, future) == call_ensures(callback, (url, kind), future)
    }

    pub(crate) fn new<F>(callback: F) -> (stored: Self) where
        F: Fn(String, ResourceKind) -> Fut + Send + Sync + 'static,

        ensures
            stored.wraps(callback),
    {
        AsyncCallback { closure: Box::new(callback) }
    }

    fn invoke(&self, url: String, kind: ResourceKind) -> (future: Fut)
        requires
            self.accepts(url, kind),
        ensures
            self.may_return(url, kind, future),
    {
        self.closure.invoke(url, kind)
    }
}

/// How a registered closure is called. Sync closures take the inline dispatch
/// path; the futures of async closures are spawned on `runtime`.
#[verifier::reject_recursive_types(Fut)]
pub enum FsCallbackKind<Fut> {
    Sync(SyncCallback),
    Async { callback: AsyncCallback<Fut>, runtime: Handle },
}

/// The name of a kind of callback, as debug output shows it.
pub open spec fn callback_kind_name<Fut>(kind: FsCallbackKind<Fut>) -> Seq<char> {
    match kind {
        FsCallbackKind::Sync(_) => "FsCallbackKind::Sync"@,
        FsCallbackKind::Async { .. } => "FsCallbackKind::Async"@,
    }
}

impl<Fut> FsCallbackKind<Fut> {
    /// The name of this kind, for debug output.
    pub fn debug_name(&self) -> (name: &'static str)
        ensures
            name@ == callback_kind_name(*self),
            self is Sync ==> name@ == "FsCallbackKind::Sync"@,
            self is Async ==> name@ == "FsCallbackKind::Async"@,
    {
        match self {
            FsCallbackKind::Sync(_) => "FsCallbackKind::Sync",
            FsCallbackKind::Async { .. } => "FsCallbackKind::Async",
        }
    }
}

/// Opaque handle to a closure that serves resource requests. `Fut` is the type
/// of future that an async closure gives.
///
/// The closure has to be `Send + Sync`: one callback is shared by every renderer
/// that is built while it is registered, and these may run on several threads.
#[verifier::reject_recursive_types(Fut)]
pub struct FileSourceRequestCallback<Fut> {
    inner: FsCallbackKind<Fut>,
}

impl<Fut> View for FileSourceRequestCallback<Fut> {
    type V = FsCallbackKind<Fut>;

    closed spec fn view(&self) -> FsCallbackKind<Fut> {
        self.inner
    }
}

impl<Fut> FileSourceRequestCallback<Fut> {
    /// Wrap a sync closure. The closure is invoked inline on whatever thread
    /// the request is issued from, and a slow one stalls that thread.
    pub fn new_sync<F>(callback: F) -> (wrapped: Self) where
        F: Fn(&str, ResourceKind) -> FsResponse + Send + Sync + 'static,

        ensures
            wrapped@ matches FsCallbackKind::Sync(stored) && stored.wraps(callback),
    {
        Self { inner: FsCallbackKind::Sync(SyncCallback::new(callback)) }
    }

    /// Wrap an async closure. The future it gives for a request is spawned on
    /// `runtime`.
    pub fn new_async<F>(runtime: Handle, callback: F) -> (wrapped: Self) where
        F: Fn(String, ResourceKind) -> Fut + Send + Sync + 'static,
        Fut: Future<Output = FsResponse> + Send + 'static,

        ensures
            wrapped@ matches FsCallbackKind::Async { callback: stored, runtime: spawned_on }
                && stored.wraps(callback) && spawned_on == runtime,
    {
        Self { inner: FsCallbackKind::Async { callback: AsyncCallback::new(callback), runtime } }
    }

    pub(crate) fn of_kind(kind: FsCallbackKind<Fut>) -> (wrapped: Self)
        ensures
            wrapped@ == kind,
    {
        Self { inner: kind }
    }

    /// How the closure is called.
    pub fn kind(&self) -> (kind: &FsCallbackKind<Fut>)
        ensures
            *kind == self@,
    {
        &self.inner
    }

    /// The debug output of this callback. It shows the kind of the closure, and
    /// nothing of the closure itself.
    pub fn debug_text(&self) -> (text: String)
        ensures
            text@ == "FileSourceRequestCallback { kind: "@ + callback_kind_name(self@) + " }"@,
            self@ is Sync ==> text@ == "FileSourceRequestCallback { kind: "@
                + "FsCallbackKind::Sync"@ + " }"@,
            self@ is Async ==> text@ == "FileSourceRequestCallback { kind: "@
                + "FsCallbackKind::Async"@ + " }"@,
    {
        let mut text = String::from_str("FileSourceRequestCallback { kind: ");
        text.append(self.inner.debug_name());
        text.append(" }");
        text
    }
}

/// Whether requests to `callback` are dispatched inline, through
/// [`fs_invoke_sync`], and not through [`fs_invoke_async`].
pub fn fs_callback_is_sync<Fut>(callback: &FileSourceRequestCallback<Fut>) -> (sync: bool)
    ensures
        sync <==> callback@ is Sync,
{
    match &callback.inner {
        FsCallbackKind::Sync(_) => true,
        FsCallbackKind::Async { .. } => false,
    }
}

/// Whether `wire` is the flat form of an answer that the sync closure of `kind`
/// may give to a request for `url` with the kind that the byte `code` stands for.
pub open spec fn answers_inline<Fut>(
    kind: FsCallbackKind<Fut>,
    url: &str,
    code: u8,
    wire: RustFsResponseView,
) -> bool {
    exists|response: FsResponse| #[trigger]
        kind->Sync_0.may_return(url, kind_of_code(code), response) && wire == wire_form(response@)
}

/// Sync dispatch: calls the closure with `url` and the kind that the byte `kind`
/// stands for, and flattens its answer.
pub fn fs_invoke_sync<Fut>(
    callback: &FileSourceRequestCallback<Fut>,
    url: &str,
    kind: u8,
) -> (wire: RustFsResponse)
    requires
        callback@ matches FsCallbackKind::Sync(closure) && closure.accepts(url, kind_of_code(kind)),
    ensures
        answers_inline(callback@, url, kind, wire@),
        exists|response: FsResponse| #[trigger]
            callback@->Sync_0.may_return(url, kind_of_code(kind), response) && wire@ == wire_form(
                response@,
            ),
{
    match &callback.inner {
        FsCallbackKind::Sync(closure) => ffi_response(
            closure.invoke(url, ResourceKind::from_u8(kind)),
        ),
        FsCallbackKind::Async { .. } => vstd::pervasive::unreached(),
    }
}

/// Where the answer to one async request goes. It takes one answer, and hands it
/// to `S` in its flat form.
pub struct RequestSink<S> {
    receiver: S,
}

impl<S> View for RequestSink<S> {
    type V = S;

    closed spec fn view(&self) -> S {
        self.receiver
    }
}

impl<S> RequestSink<S> where S: FnOnce(RustFsResponse) {
    /// Delivers the answer.
    pub fn deliver(self, response: FsResponse)
        requires
            forall|wire: RustFsResponse|
                wire@ == wire_form(response@) ==> #[trigger] call_requires(self@, (wire,)),
        ensures
            exists|wire: RustFsResponse|
                wire@ == wire_form(response@) && #[trigger] call_ensures(self@, (wire,), ()),
    {
        let wire = ffi_response(response);
        assert(call_requires(self@, (wire,)));
        let receiver = self.receiver;
        receiver(wire);
        assert(call_ensures(self@, (wire,), ()));
    }
}

/// Async dispatch: calls the closure with `url` and the kind that the byte
/// `kind` stands for, and spawns a task on the runtime of the callback.
///
/// `task_of` makes the task out of the future that the closure gives and the
/// sink of the request, which takes the answer for `receiver`. The task is to
/// await the future and to deliver what it comes to. Where every task that
/// `task_of` makes does so, a task that ends without an error has handed the
/// flat form of what the future came to over to `receiver`.
pub fn fs_invoke_async<Fut, S, D, T>(
    callback: &FileSourceRequestCallback<Fut>,
    url: String,
    kind: u8,
    receiver: S,
    task_of: D,
) -> (task: JoinHandle<()>) where
    Fut: Future<Output = FsResponse> + Send + 'static,
    S: FnOnce(RustFsResponse),
    D: FnOnce(Fut, RequestSink<S>) -> T,
    T: Future<Output = ()> + Send + 'static,

    requires
        callback@ matches FsCallbackKind::Async { callback: closure, .. } && closure.accepts(
            url,
            kind_of_code(kind),
        ),
        forall|future: Fut, sink: RequestSink<S>|
            callback@->callback.may_return(url, kind_of_code(kind), future) && sink@ == receiver
                ==> #[trigger] call_requires(task_of, (future, sink)),
    ensures
        spawned_on(task) == callback@->runtime,
        exists|future: Fut, sink: RequestSink<S>, spawned: T|
            callback@->callback.may_return(url, kind_of_code(kind), future) && sink@ == receiver
                && #[trigger] call_ensures(task_of, (future, sink), spawned) && (task@ is Ok
                ==> spawned.awaited()),
        task@ is Ok && (forall|future: Fut, sink: RequestSink<S>, spawned: T| #[trigger]
            call_ensures(task_of, (future, sink), spawned) && spawned.awaited() ==> exists|
                wire: RustFsResponse,
            |
                wire@ == wire_form(future@@) && #[trigger] call_ensures(sink@, (wire,), ()))
            ==> exists|future: Fut, wire: RustFsResponse|
            #![trigger callback@->callback.may_return(url, kind_of_code(kind), future), call_ensures(receiver, (wire,), ())]
            callback@->callback.may_return(url, kind_of_code(kind), future) && wire@ == wire_form(
                future@@,
            ) && call_ensures(receiver, (wire,), ()),
{
    match &callback.inner {
        FsCallbackKind::Async { callback: closure, runtime } => {
            let future = closure.invoke(url, ResourceKind::from_u8(kind));
            spawn(runtime, task_of(future, RequestSink { receiver }))
        },
        FsCallbackKind::Sync(_) => vstd::pervasive::unreached(),
    }
}

} // verus!

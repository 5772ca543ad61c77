use vstd::prelude::*;
use crate::handler::BaseHandler;
use crate::handler::Handler;
use crate::handler::HandlerWrapper;
use crate::handler::WrapDecorate;
use crate::net::net_error::NetError;

verus! {

/// Holds the HTTP library's request builder. Opaque to the verifier; the
/// library keeps its own model of what has been accumulated. (The builder
/// type cannot be declared to the verifier here because its name collides
/// with this crate's own `RequestBuilder`.)
#[verifier::external_body]
pub struct RawBuilder(pub reqwest::RequestBuilder);

/// Holds the HTTP library's immutable request. Opaque to the verifier.
#[verifier::external_body]
pub struct RawRequest(pub reqwest::Request);

/// What the library knows of an accumulated request: the verb's name and
/// the URL it was created for, the header pairs appended in order (bearer
/// authentication among them, since the transport records it as one more
/// appended header), the body text, and the timeout.
pub struct ReqModel {
    pub method: Seq<char>,
    pub url: Seq<char>,
    pub headers: Seq<(Seq<char>, Seq<char>)>,
    pub body: Option<Seq<char>>,
    pub timeout_ms: Option<u64>,
}

impl ReqModel {
    /// The model of a builder fresh from `get_raw_request_builder`.
    pub open spec fn fresh(method: Seq<char>, url: Seq<char>) -> ReqModel {
        ReqModel { method, url, headers: Seq::empty(), body: None, timeout_ms: None }
    }

    pub open spec fn with_header(self, key: Seq<char>, value: Seq<char>) -> ReqModel {
        ReqModel { headers: self.headers.push((key, value)), ..self }
    }

    /// Bearer authentication appends one more authorization header pair;
    /// an earlier invalid token therefore stays recorded, exactly as the
    /// transport keeps its stored error.
    pub open spec fn with_bearer(self, token: Seq<char>) -> ReqModel {
        self.with_header("authorization"@, "Bearer "@ + token)
    }

    pub open spec fn with_body(self, body: Seq<char>) -> ReqModel {
        ReqModel { body: Some(body), ..self }
    }

    pub open spec fn with_timeout(self, ms: u64) -> ReqModel {
        ReqModel { timeout_ms: Some(ms), ..self }
    }
}

/// Relies on reqwest::RequestBuilder::header: records the pair for the
/// request; an invalid name or value makes the eventual build fail.
#[verifier::external_body]
fn raw_header(b: RawBuilder, key: &str, value: &str) -> (r: RawBuilder) {
    RawBuilder(b.0.header(key, value))
}

/// Relies on reqwest::RequestBuilder::bearer_auth: sets the authorization
/// header from the token.
#[verifier::external_body]
fn raw_bearer_auth(b: RawBuilder, token: &str) -> (r: RawBuilder) {
    RawBuilder(b.0.bearer_auth(token))
}

/// Relies on reqwest::RequestBuilder::body with a String: the body is held
/// in memory, so the eventual request stays clonable.
#[verifier::external_body]
fn raw_body(b: RawBuilder, body: String) -> (r: RawBuilder) {
    RawBuilder(b.0.body(body))
}

/// Relies on reqwest::Body::wrap_stream: a streaming body, which the
/// eventual request cannot clone.
#[verifier::external_body]
fn raw_body_stream(b: RawBuilder, chunks: Vec<String>) -> (r: RawBuilder) {
    RawBuilder(b.0.body(reqwest::Body::wrap_stream(futures_util::stream::iter(
        chunks.into_iter().map(|c| Ok::<String, std::convert::Infallible>(c)),
    ))))
}

/// Relies on reqwest::RequestBuilder::timeout.
#[verifier::external_body]
fn raw_timeout(b: RawBuilder, ms: u64) -> (r: RawBuilder) {
    RawBuilder(b.0.timeout(std::time::Duration::from_millis(ms)))
}

/// Whether the transport accepts a request accumulated to this model:
/// reqwest's build step is deterministic in the accumulated state, and
/// only the URL and the appended header pairs (bearer authentication
/// among them) can make it fail, all of which the model records in full.
pub uninterp spec fn build_ok(m: ReqModel) -> bool;

/// Mutable accumulation of URL, headers, auth, body and timeout; the
/// terminal `build` converts it into an immutable `Request`. The library
/// tracks a model of the accumulated state and whether the eventual
/// request will be clonable.
pub struct RequestBuilder {
    pub(crate) base_handler: BaseHandler,
    pub(crate) inner: RawBuilder,
    pub(crate) clonable: bool,
    pub(crate) model: Ghost<ReqModel>,
}

impl RequestBuilder {
    /// Assembles a builder from its parts; only the library's own code
    /// does this, and every caller owes what the verifier cannot check
    /// here: the model and the clonability bit must mirror exactly what
    /// has been accumulated in the raw builder.
    pub(crate) fn assemble(
        base_handler: BaseHandler,
        inner: RawBuilder,
        clonable: bool,
        model: Ghost<ReqModel>,
    ) -> (r: RequestBuilder)
        ensures
            r.model() == model@,
            r.spec_clonable() == clonable,
    {
        RequestBuilder { base_handler, inner, clonable, model }
    }

    /// What has been accumulated so far.
    pub closed spec fn model(&self) -> ReqModel {
        self.model@
    }

    /// Whether the request this builder will produce can be cloned (its
    /// body, if any, is held in memory rather than streamed).
    pub closed spec fn spec_clonable(&self) -> bool {
        self.clonable
    }

    /// Adds a header pair.
    pub fn header(self, key: &str, value: &str) -> (r: RequestBuilder)
        ensures
            r.model() == self.model().with_header(key@, value@),
            r.spec_clonable() == self.spec_clonable(),
    {
        let ghost m = self.model@.with_header(key@, value@);
        RequestBuilder {
            base_handler: self.base_handler,
            inner: raw_header(self.inner, key, value),
            clonable: self.clonable,
            model: Ghost(m),
        }
    }

    /// Sets bearer authentication.
    pub fn bearer_auth(self, token: &str) -> (r: RequestBuilder)
        ensures
            r.model() == self.model().with_bearer(token@),
            r.spec_clonable() == self.spec_clonable(),
    {
        let ghost m = self.model@.with_bearer(token@);
        RequestBuilder {
            base_handler: self.base_handler,
            inner: raw_bearer_auth(self.inner, token),
            clonable: self.clonable,
            model: Ghost(m),
        }
    }

    /// Sets the body from text held in memory; the request stays clonable.
    pub fn body(self, body: String) -> (r: RequestBuilder)
        ensures
            r.model() == self.model().with_body(body@),
            r.spec_clonable() == self.spec_clonable(),
    {
        let ghost m = self.model@.with_body(body@);
        RequestBuilder {
            base_handler: self.base_handler,
            inner: raw_body(self.inner, body),
            clonable: self.clonable,
            model: Ghost(m),
        }
    }

    /// Sets a streaming body from the given chunks, concatenated in order.
    /// A request with a streaming body cannot be cloned.
    pub fn body_stream(self, chunks: Vec<String>) -> (r: RequestBuilder)
        ensures
            r.model() == self.model().with_body(
                chunks@.map_values(|c: String| c@).flatten(),
            ),
            !r.spec_clonable(),
    {
        let ghost m = self.model@.with_body(chunks@.map_values(|c: String| c@).flatten());
        RequestBuilder {
            base_handler: self.base_handler,
            inner: raw_body_stream(self.inner, chunks),
            clonable: false,
            model: Ghost(m),
        }
    }

    /// Sets the request timeout, in milliseconds.
    pub fn timeout(self, ms: u64) -> (r: RequestBuilder)
        ensures
            r.model() == self.model().with_timeout(ms),
            r.spec_clonable() == self.spec_clonable(),
    {
        let ghost m = self.model@.with_timeout(ms);
        RequestBuilder {
            base_handler: self.base_handler,
            inner: raw_timeout(self.inner, ms),
            clonable: self.clonable,
            model: Ghost(m),
        }
    }

    /// Relies on reqwest::RequestBuilder::build: converts the accumulated
    /// state into an immutable request, or reports why the state was
    /// invalid (for instance an invalid header). The outcome is
    /// deterministic in the accumulated state, named by `build_ok`; the
    /// model and clonability carry over on success.
    #[verifier::external_body]
    pub fn build(self) -> (r: Result<Request, NetError>)
        ensures
            (r is Ok) == build_ok(self.model()),
            r matches Ok(req) ==> req.model() == self.model() && req.spec_clonable()
                == self.spec_clonable(),
            r matches Err(ne) ==> ne matches NetError::ReqwestError(_),
    {
        match self.inner.0.build() {
            Ok(req) => Ok(
                Request {
                    inner: RawRequest(req),
                    base_handler: self.base_handler,
                    clonable: self.clonable,
                    model: self.model,
                },
            ),
            Err(e) => Err(NetError::ReqwestError(e.to_string())),
        }
    }

    /// Builds the request and pairs it with a handler, ready to run.
    pub fn prepare_send<H: Handler>(self, handler: H) -> (r: Result<
        RequestRunner<H>,
        NetError,
    >)
        requires
            handler.wf(),
        ensures
            (r is Ok) == build_ok(self.model()),
            r matches Ok(runner) ==> runner.wf() && runner.request.model() == self.model()
                && runner.handler == handler,
    {
        match self.build() {
            Ok(request) => Ok(RequestRunner { request, handler }),
            Err(e) => Err(e),
        }
    }
}

/// An immutable request, produced by `RequestBuilder::build`. Supports
/// `try_clone`, which fails exactly when the body is streamed.
pub struct Request {
    pub(crate) inner: RawRequest,
    pub(crate) base_handler: BaseHandler,
    pub(crate) clonable: bool,
    pub(crate) model: Ghost<ReqModel>,
}

impl Request {
    /// The model carried over from the builder.
    pub closed spec fn model(&self) -> ReqModel {
        self.model@
    }

    /// Whether the body (if any) is held in memory, so the request clones.
    pub closed spec fn spec_clonable(&self) -> bool {
        self.clonable
    }

    pub fn is_clonable(&self) -> (r: bool)
        ensures
            r == self.spec_clonable(),
    {
        self.clonable
    }

    /// Relies on reqwest::Request::try_clone: a request clones exactly
    /// when its body is absent or held in memory; a streaming body does
    /// not clone. The library's builders set `clonable` accordingly, and
    /// requests are only ever constructed by those builders.
    #[verifier::external_body]
    pub fn try_clone(&self) -> (r: Option<Request>)
        ensures
            (r is Some) == self.spec_clonable(),
            r matches Some(c) ==> c.spec_clonable() == self.spec_clonable() && c.model()
                == self.model(),
    {
        match self.inner.0.try_clone() {
            Some(raw) => Some(
                Request {
                    inner: RawRequest(raw),
                    base_handler: self.base_handler.clone(),
                    clonable: self.clonable,
                    model: self.model,
                },
            ),
            None => None,
        }
    }

    /// Surrenders the underlying transport request, for the code that
    /// actually sends it.
    pub fn into_raw(self) -> (r: RawRequest) {
        self.inner
    }
}

/// An immutable request paired with the handler that will execute it.
pub struct RequestRunner<H: Handler> {
    pub request: Request,
    pub handler: H,
}

impl<H: Handler> RequestRunner<H> {
    pub open spec fn wf(&self) -> bool {
        self.handler.wf()
    }

    /// Executes the carried request through the carried handler: for a
    /// handler with a deterministic outcome stream, the result is its next
    /// outcome.
    pub fn run(self) -> (r: Result<H::Resp, H::Error>)
        requires
            self.wf(),
        ensures
            self.handler.obeys_outcome() ==> r == self.handler.outcome_at(0),
    {
        let RequestRunner { request, mut handler } = self;
        handler.execute(request)
    }
}

impl<H: Handler, W: HandlerWrapper<H>> WrapDecorate<H, W> for RequestRunner<H> {
    type Output = RequestRunner<W::Output>;

    open spec fn wrappable(&self, wrapper: &W) -> bool {
        wrapper.can_wrap(&self.handler)
    }

    fn wrap(self, wrapper: W) -> (r: RequestRunner<W::Output>)
        ensures
            r.wf(),
            r.request == self.request,
            wrapper.wraps(&r.handler, &self.handler),
    {
        let RequestRunner { request, handler } = self;
        RequestRunner { request, handler: wrapper.wrap_into(handler) }
    }
}

} // verus!

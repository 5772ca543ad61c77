use vstd::prelude::*;
use crate::capability::apply_capability_chain;
use crate::capability::chain_obeys;
use crate::capability::spec_apply_chain;
use crate::endpoint::EndpointExt;
use crate::endpoint::EndpointInfo;
use crate::endpoint::EndpointProcessor;
use crate::endpoint::Process;
use crate::handler::BaseHandler;
use crate::handler::Handler;
use crate::handler::HandlerWrapper;
use crate::handler::WrapDecorate;
use crate::net::bodies::Body;
use crate::net::net_error::NetError;
use crate::net::request::RawBuilder;
use crate::net::request::ReqModel;
use crate::net::request::build_ok;
use crate::net::request::Request;
use crate::net::request::RequestBuilder;
use crate::resources::resource_handler::ResourceManager;
use crate::utils::error::Error;
use crate::endpoint::url_norm;
use crate::record::Record;
use crate::utils::error::ErrorView;
use crate::utils::error::NetErrorView;
use crate::utils::format_string::PartView;
use crate::utils::format_string::resolve_parts;
use crate::utils::format_string::spec_parse;

verus! {

#[verifier::external_type_specification]
#[verifier::external_body]
pub struct ExRateLimiter(async_rate_limiter::RateLimiter);

#[verifier::external_type_specification]
#[verifier::external_body]
pub struct ExMethod(reqwest::Method);

/// Holds the HTTP library's client. Opaque to the verifier. (The client
/// type cannot be declared to the verifier here because its name collides
/// with this crate's own `Client`.)
#[verifier::external_body]
pub struct RawClient(pub reqwest::Client);

/// Relies on reqwest::Client::request: starts a request builder for the
/// method and URL; an invalid URL surfaces when the request is built.
#[verifier::external_body]
fn raw_request(c: &std::sync::Arc<RawClient>, method: reqwest::Method, url: &str) -> (r:
    RawBuilder) {
    RawBuilder(c.0.request(method, url))
}

/// The entry point for building and running endpoint calls: the transport
/// client, and the rate limiter every actual send must acquire a permit
/// from. The send itself is I/O and lives with the caller; the library
/// builds the requests.
#[derive(Clone)]
pub struct Client {
    inner: std::sync::Arc<RawClient>,
    rate_limiter: std::sync::Arc<async_rate_limiter::RateLimiter>,
}

impl Client {
    /// The transport client this value carries.
    pub closed spec fn spec_transport(&self) -> std::sync::Arc<RawClient> {
        self.inner
    }

    /// The rate limiter gate this value carries.
    pub closed spec fn spec_limiter(&self) -> std::sync::Arc<async_rate_limiter::RateLimiter> {
        self.rate_limiter
    }

    pub fn new(reqwest_client: RawClient, rate_limiter: async_rate_limiter::RateLimiter) -> (r:
        Client)
        ensures
            r.spec_transport() == reqwest_client,
            r.spec_limiter() == rate_limiter,
    {
        Client::__new(reqwest_client, std::sync::Arc::new(rate_limiter))
    }

    pub(crate) fn __new(
        client: RawClient,
        rate_limiter: std::sync::Arc<async_rate_limiter::RateLimiter>,
    ) -> (r: Client)
        ensures
            r.spec_transport() == client,
            r.spec_limiter() == rate_limiter,
    {
        Client { inner: std::sync::Arc::new(client), rate_limiter }
    }

    /// The transport client, for the code that actually sends.
    pub fn raw_client(&self) -> (r: &std::sync::Arc<RawClient>)
        ensures
            *r == self.spec_transport(),
    {
        &self.inner
    }

    /// The shared rate limiter gate, for the code that actually sends.
    pub fn limiter(&self) -> (r: &std::sync::Arc<async_rate_limiter::RateLimiter>)
        ensures
            *r == self.spec_limiter(),
    {
        &self.rate_limiter
    }

    /// Starts a request builder for the verb and URL, carrying this
    /// client along. The builder starts with no headers, no body and no
    /// timeout, and would produce a clonable request.
    pub fn get_raw_request_builder(&self, verb: &HttpVerb, url: &str) -> (r: RequestBuilder)
        ensures
            r.model() == ReqModel::fresh(verb.spec_method_name(), url@),
            r.spec_clonable(),
    {
        let ghost m = ReqModel::fresh(verb.spec_method_name(), url@);
        RequestBuilder::assemble(
            BaseHandler::new(self.clone()),
            raw_request(&self.inner, verb.as_method(), url),
            true,
            Ghost(m),
        )
    }

    /// Builds the request for one endpoint call: resolves the URL, picks
    /// the verb, attaches the body where the verb carries one, then
    /// applies the record's capabilities and after them the endpoint's
    /// own, in order, stopping at the first failure. A malformed template
    /// or a missing resource in the path is reported as exactly that
    /// error; for an endpoint whose selections follow their spec hooks,
    /// the result is exactly the pipeline's folded model.
    pub fn request_builder<E: EndpointInfo>(
        &self,
        call_context: &mut E::CallContext,
        resources: &ResourceManager,
    ) -> (r: Result<RequestBuilder, Error>)
        ensures
            match spec_parse(E::spec_path()) {
                Err(e) => r matches Err(er) && er matches Error::FormatSyntax(e2) && e2 == e,
                Ok(parts) => match resolve_parts(parts, resources.contents()) {
                    Err(name) => r matches Err(er) && er matches Error::NoResFound(n) && n@
                        == name,
                    Ok(text) => match url_norm(text) {
                        None => r matches Err(er) && er matches Error::NetError(ne)
                            && ne matches NetError::NotAValidUrl(_),
                        Some(_) => true,
                    },
                },
            },
            pipeline_obeys::<E>(*old(call_context)) ==> match spec_pipeline::<E>(
                *old(call_context),
                resources.contents(),
            ) {
                Ok(m) => r matches Ok(b) && b.model() == m && b.spec_clonable(),
                Err(ev) => r matches Err(e) && e@ == ev,
            },
            E::obeys_modify_spec() ==> E::obeys_verb_spec() ==> *final(call_context) == *old(
                call_context,
            ),
    {
        let url = match E::full_url(call_context, resources) {
            Ok(u) => u,
            Err(e) => {
                return Err(e);
            },
        };
        let verb = E::http_verb(call_context);
        let request = self.get_raw_request_builder(&verb, url.as_str());
        let ghost verbv = verb@;

        let body_opt: Option<Body> = match verb {
            HttpVerb::GET => None,
            HttpVerb::OPTIONS => None,
            HttpVerb::HEAD => None,
            HttpVerb::DELETE(ob) => ob,
            HttpVerb::POST(b) => Some(b),
            HttpVerb::PUT(b) => Some(b),
            HttpVerb::PATCH(b) => Some(b),
        };
        proof {
            match &body_opt {
                Some(b) => {
                    assert(verbv.body == Some(b.0.0@));
                },
                None => {
                    assert(verbv.body is None);
                },
            }
        }
        let request = match body_opt {
            None => request,
            Some(body) => match body.add_body(request, resources) {
                Ok(b) => b,
                Err(e) => {
                    return Err(e);
                },
            },
        };

        let record_caps = E::record_capabilities();
        let request = match apply_capability_chain(&record_caps, request, resources) {
            Ok(b) => b,
            Err(e) => {
                return Err(e);
            },
        };
        let endpoint_caps = E::caps(call_context);
        let request = match apply_capability_chain(&endpoint_caps, request, resources) {
            Ok(b) => b,
            Err(e) => {
                return Err(e);
            },
        };
        Ok(request)
    }

    /// Builds the immutable request for one endpoint call: the builder
    /// pipeline followed by the terminal build step. For an endpoint
    /// whose selections follow their spec hooks, success and the built
    /// request's model are pinned by the pipeline's folded model and the
    /// transport's acceptance of it.
    pub fn get_request<E: EndpointInfo>(
        &self,
        call_context: &mut E::CallContext,
        resources: &ResourceManager,
    ) -> (r: Result<Request, Error>)
        ensures
            match spec_parse(E::spec_path()) {
                Err(e) => r matches Err(er) && er matches Error::FormatSyntax(e2) && e2 == e,
                Ok(parts) => match resolve_parts(parts, resources.contents()) {
                    Err(name) => r matches Err(er) && er matches Error::NoResFound(n) && n@
                        == name,
                    Ok(text) => match url_norm(text) {
                        None => r matches Err(er) && er matches Error::NetError(ne)
                            && ne matches NetError::NotAValidUrl(_),
                        Some(_) => true,
                    },
                },
            },
            pipeline_obeys::<E>(*old(call_context)) ==> match spec_pipeline::<E>(
                *old(call_context),
                resources.contents(),
            ) {
                Ok(m) => if build_ok(m) {
                    r matches Ok(req) && req.model() == m && req.spec_clonable()
                } else {
                    r matches Err(e) && e matches Error::NetError(ne)
                        && ne matches NetError::ReqwestError(_)
                },
                Err(ev) => r matches Err(e) && e@ == ev,
            },
            E::obeys_modify_spec() ==> E::obeys_verb_spec() ==> *final(call_context) == *old(
                call_context,
            ),
    {
        match self.request_builder::<E>(call_context, resources) {
            Ok(rb) => match rb.build() {
                Ok(req) => Ok(req),
                Err(ne) => Err(Error::NetError(ne)),
            },
            Err(e) => Err(e),
        }
    }

    /// Pairs this client with an endpoint's handler and call context,
    /// ready to run calls.
    pub fn run_endpoint<E: EndpointInfo>(&self, call_context: E::CallContext) -> (r:
        EndpointRunner<E, E::EndpointHandler>)
        ensures
            r.wf(),
    {
        EndpointRunner::<E, E::EndpointHandler>::new(self.clone(), call_context)
    }
}

/// One endpoint bound to a client, a handler and a call context. Running
/// it builds the request, executes it through the handler stack, and
/// interprets the response.
pub struct EndpointRunner<E: EndpointInfo, H: Handler> {
    pub client: Client,
    pub handler: H,
    pub call_context: E::CallContext,
}

impl<E: EndpointInfo, H: Handler, W: HandlerWrapper<H>> WrapDecorate<H, W> for EndpointRunner<
    E,
    H,
> {
    type Output = EndpointRunner<E, W::Output>;

    open spec fn wrappable(&self, wrapper: &W) -> bool {
        wrapper.can_wrap(&self.handler)
    }

    fn wrap(self, wrapper: W) -> (r: EndpointRunner<E, W::Output>)
        ensures
            r.wf(),
            r.client == self.client,
            r.call_context == self.call_context,
            wrapper.wraps(&r.handler, &self.handler),
    {
        let EndpointRunner { client, handler, call_context } = self;
        EndpointRunner { client, handler: wrapper.wrap_into(handler), call_context }
    }
}

impl<E: EndpointInfo, H: Handler> EndpointRunner<E, H> {
    /// Whether the runner's handler is in a state its contract covers.
    pub open spec fn wf(&self) -> bool {
        self.handler.wf()
    }
}

impl<E: EndpointInfo> EndpointRunner<E, E::EndpointHandler> {
    pub fn new(client: Client, call_context: E::CallContext) -> (r: EndpointRunner<
        E,
        E::EndpointHandler,
    >)
        ensures
            r.wf(),
            r.client == client,
    {
        let mut call_context = call_context;
        let base_handler = E::endpoint_handler(&mut call_context);
        EndpointRunner { client, handler: base_handler, call_context }
    }
}

impl<E: EndpointInfo, H: Handler> EndpointRunner<E, H> {
    /// Builds the request for this call and executes it through the
    /// handler stack. Build failures never reach the handler; handler
    /// failures wrap the handler's own error.
    pub fn run_get_response(&mut self, resources: &ResourceManager) -> (r: Result<
        H::Resp,
        EndpointRunnerError<H>,
    >)
        requires
            old(self).wf(),
        ensures
            final(self).wf(),
            match spec_parse(E::spec_path()) {
                Err(e) => r matches Err(er) && er matches EndpointRunnerError::FailedToBuildRequest(b)
                    && b matches Error::FormatSyntax(e2) && e2 == e,
                Ok(parts) => match resolve_parts(parts, resources.contents()) {
                    Err(name) => r matches Err(er)
                        && er matches EndpointRunnerError::FailedToBuildRequest(b)
                        && b matches Error::NoResFound(n) && n@ == name,
                    Ok(text) => match url_norm(text) {
                        None => r matches Err(er)
                            && er matches EndpointRunnerError::FailedToBuildRequest(b)
                            && b matches Error::NetError(ne)
                            && ne matches NetError::NotAValidUrl(_),
                        Some(_) => true,
                    },
                },
            },
            r matches Err(EndpointRunnerError::FailedToBuildRequest(_))
                ==> final(self).handler.calls() == old(self).handler.calls(),
            r matches Err(EndpointRunnerError::HandlerError(_)) ==> final(self).handler.calls()
                == old(self).handler.calls() + 1,
            r is Ok ==> final(self).handler.calls() == old(self).handler.calls() + 1,
            old(self).handler.obeys_outcome() ==> (r matches Ok(resp) ==> old(
                self,
            ).handler.outcome_at(0) == Ok::<H::Resp, H::Error>(resp)),
            old(self).handler.obeys_outcome() ==> (r matches Err(
                EndpointRunnerError::HandlerError(e),
            ) ==> old(self).handler.outcome_at(0) == Err::<H::Resp, H::Error>(e)),
            E::obeys_modify_spec() ==> E::obeys_verb_spec() ==> final(self).call_context == old(
                self,
            ).call_context,
    {
        let req = match self.client.get_request::<E>(&mut self.call_context, resources) {
            Ok(rq) => rq,
            Err(e) => {
                return Err(EndpointRunnerError::FailedToBuildRequest(e));
            },
        };
        match self.handler.execute(req) {
            Ok(resp) => Ok(resp),
            Err(e) => Err(EndpointRunnerError::HandlerError(e)),
        }
    }

    /// Runs the call to a typed output: response, process step, then
    /// refinement against the call context.
    pub fn run<O>(&mut self, resources: &ResourceManager) -> (r: Result<
        O,
        EndpointRunnerError<H>,
    >) where
        E: EndpointProcessor<O>,
        <E as EndpointProcessor<O>>::Process: Process<In = H::Resp>,

        requires
            old(self).wf(),
        ensures
            final(self).wf(),
            match spec_parse(E::spec_path()) {
                Err(e) => r matches Err(er) && er matches EndpointRunnerError::FailedToBuildRequest(b)
                    && b matches Error::FormatSyntax(e2) && e2 == e,
                Ok(parts) => match resolve_parts(parts, resources.contents()) {
                    Err(name) => r matches Err(er)
                        && er matches EndpointRunnerError::FailedToBuildRequest(b)
                        && b matches Error::NoResFound(n) && n@ == name,
                    Ok(text) => match url_norm(text) {
                        None => r matches Err(er)
                            && er matches EndpointRunnerError::FailedToBuildRequest(b)
                            && b matches Error::NetError(ne)
                            && ne matches NetError::NotAValidUrl(_),
                        Some(_) => true,
                    },
                },
            },
            r matches Err(EndpointRunnerError::FailedToBuildRequest(_))
                ==> final(self).handler.calls() == old(self).handler.calls(),
            r matches Err(EndpointRunnerError::HandlerError(_)) ==> final(self).handler.calls()
                == old(self).handler.calls() + 1,
            r is Ok ==> final(self).handler.calls() == old(self).handler.calls() + 1,
            E::obeys_modify_spec() ==> E::obeys_verb_spec() ==> old(self).handler.obeys_outcome()
                ==> <E as EndpointProcessor<O>>::obeys_refine_spec()
                ==> <<E as EndpointProcessor<O>>::Process as Process>::obeys_process_spec()
                ==> (r matches Ok(out) ==> (old(self).handler.outcome_at(0) matches Ok(resp)
                ==> out == <E as EndpointProcessor<O>>::spec_refine(
                <<E as EndpointProcessor<O>>::Process as Process>::spec_process(resp),
                old(self).call_context,
            ))),
    {
        let response = match self.run_get_response(resources) {
            Ok(resp) => resp,
            Err(e) => {
                return Err(e);
            },
        };
        let proc_output = <<E as EndpointProcessor<O>>::Process as Process>::process(response);
        Ok(E::refine(proc_output, &mut self.call_context))
    }
}

/// Why running an endpoint failed: the request never got built (nothing
/// was sent), or the handler stack reported a failure.
pub enum EndpointRunnerError<H: Handler> {
    FailedToBuildRequest(Error),
    HandlerError(H::Error),
}

/// The HTTP verb of a call; the verbs that may carry a body do so here.
#[derive(Debug)]
pub enum HttpVerb {
    GET,
    POST(Body),
    PUT(Body),
    DELETE(Option<Body>),
    PATCH(Body),
    OPTIONS,
    HEAD,
}

/// Whether every selection an endpoint call draws on follows its spec
/// hook: the endpoint's URL adjustment, verb and capability choices, the
/// record's capability set, and every capability of both chains.
pub open spec fn pipeline_obeys<E: EndpointInfo>(ctx: E::CallContext) -> bool {
    &&& E::obeys_modify_spec()
    &&& E::obeys_verb_spec()
    &&& E::obeys_caps_spec()
    &&& <E::Record as Record>::obeys_caps_spec()
    &&& chain_obeys(<E::Record as Record>::spec_shared_caps())
    &&& chain_obeys(E::spec_caps(ctx))
}

/// What one endpoint call accumulates, for an endpoint whose selections
/// follow their spec hooks: the path template resolves and validates to a
/// URL, the verb and its body are chosen, the body template resolves, and
/// both capability chains fold over the model in order -- or the first
/// failing step's error.
pub open spec fn spec_pipeline<E: EndpointInfo>(
    ctx: E::CallContext,
    contents: Map<Seq<char>, Seq<char>>,
) -> Result<ReqModel, ErrorView> {
    match spec_parse(E::spec_path()) {
        Err(e) => Err(ErrorView::FormatSyntax(e)),
        Ok(parts) => match resolve_parts(parts, contents) {
            Err(name) => Err(ErrorView::NoResFound(name)),
            Ok(text) => match url_norm(text) {
                None => Err(ErrorView::NetError(NetErrorView::NotAValidUrl)),
                Some(u) => {
                    let verb = E::spec_http_verb(ctx);
                    let m0 = ReqModel::fresh(verb.method, E::spec_modify_url(u, ctx));
                    let after_body = match verb.body {
                        None => Ok(m0),
                        Some(segs) => match resolve_parts(segs, contents) {
                            Ok(t) => Ok(m0.with_body(t)),
                            Err(name) => Err(ErrorView::NoResFound(name)),
                        },
                    };
                    match after_body {
                        Err(ev) => Err(ev),
                        Ok(m1) => match spec_apply_chain(
                            <E::Record as Record>::spec_shared_caps(),
                            m1,
                            contents,
                        ) {
                            Err(ev) => Err(ev),
                            Ok(m2) => spec_apply_chain(E::spec_caps(ctx), m2, contents),
                        },
                    }
                },
            },
        },
    }
}

/// The mathematical shape of a verb: its wire name and, where the verb
/// carries one, the segments of its body template.
pub struct HttpVerbView {
    pub method: Seq<char>,
    pub body: Option<Seq<PartView>>,
}

impl View for HttpVerb {
    type V = HttpVerbView;

    open spec fn view(&self) -> HttpVerbView {
        HttpVerbView {
            method: self.spec_method_name(),
            body: match self {
                HttpVerb::POST(b) => Some(b.0.0@),
                HttpVerb::PUT(b) => Some(b.0.0@),
                HttpVerb::PATCH(b) => Some(b.0.0@),
                HttpVerb::DELETE(Some(b)) => Some(b.0.0@),
                HttpVerb::DELETE(None) => None,
                HttpVerb::GET => None,
                HttpVerb::OPTIONS => None,
                HttpVerb::HEAD => None,
            },
        }
    }
}

impl HttpVerb {
    /// The verb's name on the wire, which the request model records.
    pub open spec fn spec_method_name(&self) -> Seq<char> {
        match self {
            HttpVerb::GET => "GET"@,
            HttpVerb::POST(_) => "POST"@,
            HttpVerb::PUT(_) => "PUT"@,
            HttpVerb::DELETE(_) => "DELETE"@,
            HttpVerb::PATCH(_) => "PATCH"@,
            HttpVerb::OPTIONS => "OPTIONS"@,
            HttpVerb::HEAD => "HEAD"@,
        }
    }

    /// Relies on reqwest::Method's associated constants: each verb is
    /// converted to the transport library's method value, one arm each,
    /// matching `spec_method_name`.
    #[verifier::external_body]
    pub fn as_method(&self) -> (r: reqwest::Method) {
        match self {
            HttpVerb::GET => reqwest::Method::GET,
            HttpVerb::POST(_) => reqwest::Method::POST,
            HttpVerb::PUT(_) => reqwest::Method::PUT,
            HttpVerb::DELETE(_) => reqwest::Method::DELETE,
            HttpVerb::PATCH(_) => reqwest::Method::PATCH,
            HttpVerb::OPTIONS => reqwest::Method::OPTIONS,
            HttpVerb::HEAD => reqwest::Method::HEAD,
        }
    }
}

} // verus!

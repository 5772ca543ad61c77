use vstd::prelude::*;
use crate::capability::Capability;
use crate::handler::Handler;
use crate::net::client::HttpVerb;
use crate::net::client::HttpVerbView;
use crate::net::net_error::NetError;
use crate::record::Record;
use crate::resources::resource_handler::ResourceManager;
use crate::utils::error::Error;
use crate::utils::format_string::FormatString;
use crate::utils::format_string::resolve_parts;
use crate::utils::format_string::spec_parse;

verus! {

/// The parsed, normalized form that the URL library gives a URL string,
/// if the string parses at all; it depends on the string alone.
pub uninterp spec fn url_norm(s: Seq<char>) -> Option<Seq<char>>;

/// Relies on url::Url::parse and the parsed URL's serialization: a string
/// either parses to a URL whose normalized text depends on the string
/// alone, or is rejected.
#[verifier::external_body]
fn normalize_url(s: &str) -> (r: Result<String, url::ParseError>)
    ensures
        (r is Ok) == (url_norm(s@) is Some),
        r matches Ok(t) ==> url_norm(s@) matches Some(u) && t@ == u,
{
    url::Url::parse(s).map(String::from)
}

/// The static facts of one API endpoint: its record, its path template,
/// how a call's context chooses the verb and body, the endpoint-specific
/// capabilities, and the handler that executes the call. The call context
/// is per-invocation mutable state threaded through URL, verb and
/// capability selection.
pub trait EndpointInfo {
    type Record: Record;

    type CallContext;

    type EndpointHandler: Handler;

    /// The endpoint-specific capability type.
    type Cap: Capability;

    /// The path template, as a mathematical value. A verified
    /// implementation overrides this to match `path`; the default stands
    /// for implementations outside the verified world.
    open spec fn spec_path() -> Seq<char> {
        Seq::empty()
    }

    /// The path template, in the `<name>` / `<<` / `>>` escaping grammar.
    fn path() -> (r: String)
        ensures
            r@ == Self::spec_path(),
    ;

    /// Whether `caps` follows `spec_caps`. A verified implementation that
    /// models its capability selection sets this true; the default stands
    /// for implementations outside the verified world.
    open spec fn obeys_caps_spec() -> bool {
        false
    }

    /// The endpoint-specific capabilities chosen for a call, as a
    /// mathematical function of the context.
    open spec fn spec_caps(call: Self::CallContext) -> Seq<Self::Cap> {
        arbitrary()
    }

    /// The endpoint-specific capabilities, in application order.
    fn caps(call: &Self::CallContext) -> (r: Vec<Self::Cap>)
        ensures
            Self::obeys_caps_spec() ==> r@ == Self::spec_caps(*call),
    ;

    /// The handler executing this endpoint's calls.
    fn endpoint_handler(call: &mut Self::CallContext) -> (r: Self::EndpointHandler)
        ensures
            r.wf(),
    ;

    /// Whether `http_verb` follows `spec_http_verb` and leaves the
    /// context unchanged. A verified implementation that models its verb
    /// selection sets this true; the default stands for implementations
    /// outside the verified world, whose verb may also depend on mutable
    /// state.
    open spec fn obeys_verb_spec() -> bool {
        false
    }

    /// The verb chosen for a call, as a mathematical function of the
    /// context: its wire name and its body template, where it carries one.
    open spec fn spec_http_verb(call: Self::CallContext) -> HttpVerbView {
        arbitrary()
    }

    /// The verb of this call, with its body where the verb carries one.
    fn http_verb(call: &mut Self::CallContext) -> (r: HttpVerb)
        ensures
            Self::obeys_verb_spec() ==> r@ == Self::spec_http_verb(*old(call)) && *final(call)
                == *old(call),
    ;

    /// Whether `modify_url` follows `spec_modify_url`. A verified
    /// implementation that models its adjustment sets this true; the
    /// default stands for implementations outside the verified world.
    open spec fn obeys_modify_spec() -> bool {
        false
    }

    /// The URL adjustment, as a mathematical function of the URL and the
    /// call context handed in.
    open spec fn spec_modify_url(url: Seq<char>, call: Self::CallContext) -> Seq<char> {
        url
    }

    /// An endpoint-specific URL adjustment driven by the call context,
    /// for instance appending query parameters; return the URL unchanged
    /// where no adjustment is wanted. An implementation that obeys its
    /// spec hook also leaves the context unchanged.
    fn modify_url(url: String, call: &mut Self::CallContext) -> (r: String)
        ensures
            Self::obeys_modify_spec() ==> r@ == Self::spec_modify_url(url@, *old(call))
                && *final(call) == *old(call),
    ;
}

/// What every endpoint derives from its static facts: the parsed path
/// template, the record's capabilities, and the fully resolved URL.
pub trait EndpointExt: EndpointInfo {
    /// Parses the endpoint's path template.
    fn parsed_path() -> (r: Result<FormatString, Error>)
        ensures
            match spec_parse(Self::spec_path()) {
                Ok(parts) => r matches Ok(f) && f@ == parts,
                Err(e) => r matches Err(er) && er matches Error::FormatSyntax(e2) && e2 == e,
            },
    ;

    /// The capabilities shared across the endpoint's record.
    fn record_capabilities() -> (r: Vec<<Self::Record as Record>::Cap>)
        ensures
            <Self::Record as Record>::obeys_caps_spec() ==> r@ == <Self::Record as Record>::spec_shared_caps(),
    ;

    /// Expands the path template against the registry, validates it as a
    /// URL, and applies the endpoint's URL adjustment. Each failure -- a
    /// malformed template, a missing resource, an invalid URL -- is
    /// reported as exactly that error, and only then; on success the
    /// result is the adjustment of the normalized URL.
    fn full_url(call: &mut Self::CallContext, resources: &ResourceManager) -> (r: Result<
        String,
        Error,
    >)
        ensures
            match spec_parse(Self::spec_path()) {
                Err(e) => r matches Err(er) && er matches Error::FormatSyntax(e2) && e2 == e,
                Ok(parts) => match resolve_parts(parts, resources.contents()) {
                    Err(name) => r matches Err(er) && er matches Error::NoResFound(n) && n@
                        == name,
                    Ok(text) => match url_norm(text) {
                        None => r matches Err(er) && er matches Error::NetError(ne)
                            && ne matches NetError::NotAValidUrl(_),
                        Some(u) => r matches Ok(t) && (Self::obeys_modify_spec() ==> t@
                            == Self::spec_modify_url(u, *old(call))),
                    },
                },
            },
            Self::obeys_modify_spec() ==> *final(call) == *old(call),
    ;
}

impl<E: EndpointInfo> EndpointExt for E {
    fn parsed_path() -> (r: Result<FormatString, Error>) {
        let path = Self::path();
        match FormatString::new(path.as_str()) {
            Ok(f) => Ok(f),
            Err(e) => Err(Error::FormatSyntax(e)),
        }
    }

    fn record_capabilities() -> (r: Vec<<Self::Record as Record>::Cap>) {
        <Self::Record as Record>::shared_caps()
    }

    fn full_url(call: &mut Self::CallContext, resources: &ResourceManager) -> (r: Result<
        String,
        Error,
    >) {
        let parsed = match Self::parsed_path() {
            Ok(f) => f,
            Err(e) => {
                return Err(e);
            },
        };
        let formatted = match parsed.to_formatted_now(resources) {
            Ok(text) => text,
            Err(e) => {
                return Err(e);
            },
        };
        let url = match normalize_url(formatted.as_str()) {
            Ok(u) => u,
            Err(e) => {
                return Err(Error::NetError(NetError::NotAValidUrl(e)));
            },
        };
        Ok(Self::modify_url(url, call))
    }
}

/// One way of turning a raw response into a caller-facing value: a
/// `process` step interprets the raw response, and `refine` converts the
/// processed value, together with the call context, into the requested
/// output type. An endpoint may support several output types through
/// several such pairs.
pub trait Process {
    type In;

    type ProcessOutput;

    /// Whether `process` follows `spec_process`. A verified implementation
    /// that models its interpretation sets this true; the default stands
    /// for implementations outside the verified world, whose process step
    /// may also perform I/O.
    open spec fn obeys_process_spec() -> bool {
        false
    }

    /// The interpretation, as a mathematical function of the raw response.
    open spec fn spec_process(resp: Self::In) -> Self::ProcessOutput {
        arbitrary()
    }

    fn process(resp: Self::In) -> (r: Self::ProcessOutput)
        ensures
            Self::obeys_process_spec() ==> r == Self::spec_process(resp),
    ;
}

/// The process step that hands the raw response through unchanged.
pub struct NoOpProcessor<T> {
    marker: core::marker::PhantomData<T>,
}

impl<T> Process for NoOpProcessor<T> {
    type In = T;

    type ProcessOutput = T;

    open spec fn obeys_process_spec() -> bool {
        true
    }

    open spec fn spec_process(resp: T) -> T {
        resp
    }

    fn process(resp: T) -> (r: T) {
        resp
    }
}

pub trait EndpointProcessor<O>: EndpointInfo {
    type Process: Process;

    /// Whether `refine` follows `spec_refine`. A verified implementation
    /// that models its conversion sets this true; the default stands for
    /// implementations outside the verified world.
    open spec fn obeys_refine_spec() -> bool {
        false
    }

    /// The conversion, as a mathematical function of the processed value
    /// and the call context handed in.
    open spec fn spec_refine(
        proc_output: <Self::Process as Process>::ProcessOutput,
        call: Self::CallContext,
    ) -> O {
        arbitrary()
    }

    fn refine(
        proc_output: <Self::Process as Process>::ProcessOutput,
        call_context: &mut Self::CallContext,
    ) -> (r: O)
        ensures
            Self::obeys_refine_spec() ==> r == Self::spec_refine(proc_output, *old(call_context)),
    ;
}

} // verus!

use async_rate_limiter::RateLimiter;
use bees::capability::Capability;
use bees::endpoint::EndpointExt;
use bees::endpoint::EndpointInfo;
use bees::endpoint::EndpointProcessor;
use bees::endpoint::Process;
use bees::handler::Retries;
use bees::handler::RetriesWrapper;
use bees::handler::ScriptedHandler;
use bees::handler::WrapDecorate;
use bees::net::client::Client;
use bees::net::client::EndpointRunnerError;
use bees::net::client::HttpVerb;
use bees::net::client::RawClient;
use bees::net::net_error::NetError;
use bees::net::request::RequestBuilder;
use bees::record::Record;
use bees::resources::dyn_resource::DynResource;
use bees::resources::resource_handler::ResourceManager;
use bees::utils::error::Error;
use url::Url;

fn test_client() -> Client {
    Client::new(RawClient(reqwest::Client::new()), RateLimiter::new(2))
}

pub struct NoCap;

impl Capability for NoCap {
    fn apply(
        &self,
        request: RequestBuilder,
        _resources: &ResourceManager,
    ) -> Result<RequestBuilder, Error> {
        Ok(request)
    }
}

pub struct TestR;

impl Record for TestR {
    type Cap = NoCap;

    fn shared_url() -> String {
        "https://idk.com/".to_string()
    }

    fn shared_caps() -> Vec<NoCap> {
        Vec::new()
    }
}

struct UrlContext(Vec<(String, Option<String>)>);

impl UrlContext {
    pub fn append_to_url(&self, url: &mut Url) {
        let mut query_pairs = url.query_pairs_mut();
        for (key, maybe_value) in self.0.iter() {
            if let Some(value) = maybe_value {
                query_pairs.append_pair(key, value);
            } else {
                query_pairs.append_key_only(key);
            }
        }
    }
}

struct Test;

impl EndpointInfo for Test {
    type Record = TestR;
    type CallContext = UrlContext;
    type EndpointHandler = Retries<ScriptedHandler, 3>;
    type Cap = NoCap;

    fn path() -> String {
        "https://idk.com/api/<x>".to_string()
    }

    fn caps(_: &UrlContext) -> Vec<NoCap> {
        Vec::new()
    }

    fn endpoint_handler(_: &mut UrlContext) -> Retries<ScriptedHandler, 3> {
        ScriptedHandler::new(vec![Err(1), Ok(7)]).wrap(RetriesWrapper::<3>)
    }

    fn http_verb(_: &mut UrlContext) -> HttpVerb {
        HttpVerb::GET
    }

    fn modify_url(url: String, call: &mut UrlContext) -> String {
        let mut parsed = Url::parse(&url).unwrap();
        call.append_to_url(&mut parsed);
        parsed.to_string()
    }
}

struct NoOpProcessor;

impl Process for NoOpProcessor {
    type In = u64;
    type ProcessOutput = u64;

    fn process(resp: u64) -> u64 {
        resp
    }
}

struct IntoTextProcessor;

impl Process for IntoTextProcessor {
    type In = u64;
    type ProcessOutput = String;

    fn process(resp: u64) -> String {
        resp.to_string()
    }
}

impl EndpointProcessor<String> for Test {
    type Process = NoOpProcessor;

    fn refine(proc_output: u64, _call_context: &mut UrlContext) -> String {
        proc_output.to_string()
    }
}

impl EndpointProcessor<u8> for Test {
    type Process = IntoTextProcessor;

    fn refine(proc_output: String, _call_context: &mut UrlContext) -> u8 {
        proc_output.as_bytes()[0]
    }
}

fn registry_with_x() -> ResourceManager {
    let mut rm = ResourceManager::new();
    rm.add_dyn_resource(DynResource { ident: "x".to_string(), value: "42".to_string() });
    rm
}

#[test]
fn test_static_thing() {
    let rm = registry_with_x();
    let first = Test::parsed_path().unwrap().to_formatted_now(&rm).unwrap();
    for _ in 0..3 {
        let again = Test::parsed_path().unwrap().to_formatted_now(&rm).unwrap();
        assert_eq!(again, first);
    }
}

#[test]
fn full_url_resolves_and_modifies() {
    let rm = registry_with_x();
    let mut ctx = UrlContext(vec![("k".to_string(), Some("v".to_string()))]);
    let url = Test::full_url(&mut ctx, &rm).unwrap();
    assert_eq!(url, "https://idk.com/api/42?k=v");
}

#[test]
fn full_url_reports_the_missing_resource() {
    let rm = ResourceManager::new();
    let mut ctx = UrlContext(Vec::new());
    match Test::full_url(&mut ctx, &rm) {
        Err(Error::NoResFound(name)) => assert_eq!(name, "x"),
        _ => panic!("expected NoResFound"),
    }
}

#[test]
fn run_get_response_goes_through_the_handler_stack() {
    let rm = registry_with_x();
    let client = test_client();
    let mut runner = client.run_endpoint::<Test>(UrlContext(Vec::new()));
    let response = match runner.run_get_response(&rm) {
        Ok(resp) => resp,
        Err(_) => panic!("expected a response"),
    };
    assert_eq!(response, 7);
    assert_eq!(runner.handler.inner.invocations(), 2);
}

#[test]
fn run_refines_to_the_requested_output() {
    let rm = registry_with_x();
    let client = test_client();
    let mut runner = client.run_endpoint::<Test>(UrlContext(Vec::new()));
    let out: String = match runner.run(&rm) {
        Ok(out) => out,
        Err(_) => panic!("expected an output"),
    };
    assert_eq!(out, "7");
}

#[test]
fn run_reports_build_failures_without_touching_the_handler() {
    let rm = ResourceManager::new();
    let client = test_client();
    let mut runner = client.run_endpoint::<Test>(UrlContext(Vec::new()));
    match runner.run_get_response(&rm) {
        Err(EndpointRunnerError::FailedToBuildRequest(Error::NoResFound(name))) => {
            assert_eq!(name, "x");
        },
        _ => panic!("expected a build failure"),
    }
    assert_eq!(runner.handler.inner.invocations(), 0);
}

struct BadUrl;

impl EndpointInfo for BadUrl {
    type Record = TestR;
    type CallContext = ();
    type EndpointHandler = ScriptedHandler;
    type Cap = NoCap;

    fn path() -> String {
        "not a url".to_string()
    }

    fn caps(_: &()) -> Vec<NoCap> {
        Vec::new()
    }

    fn endpoint_handler(_: &mut ()) -> ScriptedHandler {
        ScriptedHandler::new(Vec::new())
    }

    fn http_verb(_: &mut ()) -> HttpVerb {
        HttpVerb::GET
    }

    fn modify_url(url: String, _: &mut ()) -> String {
        url
    }
}

#[test]
fn invalid_url_is_a_build_error() {
    let rm = ResourceManager::new();
    let mut ctx = ();
    match BadUrl::full_url(&mut ctx, &rm) {
        Err(Error::NetError(NetError::NotAValidUrl(_))) => {},
        _ => panic!("expected NotAValidUrl"),
    }
}

#[test]
fn url_normalization_is_not_the_identity() {
    let rm = ResourceManager::new();
    let mut ctx = ();
    match Normalized::full_url(&mut ctx, &rm) {
        Ok(url) => assert_eq!(url, "https://example.com/Path"),
        _ => panic!("expected a normalized URL"),
    }
}

struct Normalized;

impl EndpointInfo for Normalized {
    type Record = TestR;
    type CallContext = ();
    type EndpointHandler = ScriptedHandler;
    type Cap = NoCap;

    fn path() -> String {
        "HTTPS://EXAMPLE.COM/Path".to_string()
    }

    fn caps(_: &()) -> Vec<NoCap> {
        Vec::new()
    }

    fn endpoint_handler(_: &mut ()) -> ScriptedHandler {
        ScriptedHandler::new(Vec::new())
    }

    fn http_verb(_: &mut ()) -> HttpVerb {
        HttpVerb::GET
    }

    fn modify_url(url: String, _: &mut ()) -> String {
        url
    }
}

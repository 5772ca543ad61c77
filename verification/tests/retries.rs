use async_rate_limiter::RateLimiter;
use bees::handler::Handler;
use bees::handler::Retries;
use bees::handler::RetriesError;
use bees::handler::RetriesWrapper;
use bees::handler::ScriptedHandler;
use bees::handler::WrapDecorate;
use bees::net::client::Client;
use bees::net::client::HttpVerb;
use bees::net::client::RawClient;
use bees::net::request::Request;

fn test_client() -> Client {
    Client::new(RawClient(reqwest::Client::new()), RateLimiter::new(2))
}

fn clonable_request() -> Request {
    let client = test_client();
    let builder = client.get_raw_request_builder(&HttpVerb::GET, "https://example.com/");
    builder.body("payload".to_string()).build().unwrap()
}

fn streaming_request() -> Request {
    let client = test_client();
    let builder = client.get_raw_request_builder(&HttpVerb::GET, "https://example.com/");
    builder.body_stream(vec!["part".to_string()]).build().unwrap()
}

#[test]
fn retry_bound_exhausts_and_returns_last_error() {
    let inner = ScriptedHandler::new(vec![Err(1), Err(2), Err(3)]);
    let mut retries: Retries<ScriptedHandler, 3> = Retries::new(inner);
    let outcome = retries.execute(clonable_request());
    assert_eq!(outcome, Err(RetriesError::InnerError(3)));
    assert_eq!(retries.inner.invocations(), 3);
}

#[test]
fn retry_success_path_after_two_failures() {
    let inner = ScriptedHandler::new(vec![Err(1), Err(2), Ok(7)]);
    let mut retries: Retries<ScriptedHandler, 3> = Retries::new(inner);
    let outcome = retries.execute(clonable_request());
    assert_eq!(outcome, Ok(7));
    assert_eq!(retries.inner.invocations(), 3);
}

#[test]
fn retry_stops_at_first_success() {
    let inner = ScriptedHandler::new(vec![Ok(5), Err(1)]);
    let mut retries: Retries<ScriptedHandler, 3> = Retries::new(inner);
    let outcome = retries.execute(clonable_request());
    assert_eq!(outcome, Ok(5));
    assert_eq!(retries.inner.invocations(), 1);
}

#[test]
fn non_clonable_body_aborts_without_invoking_inner() {
    let inner = ScriptedHandler::new(vec![Ok(1)]);
    let mut retries: Retries<ScriptedHandler, 3> = Retries::new(inner);
    let req = streaming_request();
    assert!(!req.is_clonable());
    let outcome = retries.execute(req);
    assert_eq!(outcome, Err(RetriesError::CouldNotCloneRequest));
    assert_eq!(retries.inner.invocations(), 0);
}

#[test]
fn clonable_request_clones() {
    let req = clonable_request();
    assert!(req.is_clonable());
    assert!(req.try_clone().is_some());
    let stream = streaming_request();
    assert!(stream.try_clone().is_none());
}

#[test]
fn wrapping_builds_the_same_decorator() {
    let inner = ScriptedHandler::new(vec![Err(9), Ok(4)]);
    let mut wrapped = inner.wrap(RetriesWrapper::<2>);
    let outcome = wrapped.execute(clonable_request());
    assert_eq!(outcome, Ok(4));
    assert_eq!(wrapped.inner.invocations(), 2);
}

#[test]
fn stacked_decorators_compose() {
    let inner = ScriptedHandler::new(vec![Err(1), Err(2), Err(3), Err(4)]);
    let mut stacked = inner.wrap(RetriesWrapper::<2>).wrap(RetriesWrapper::<2>);
    let outcome = stacked.execute(clonable_request());
    assert_eq!(
        outcome,
        Err(RetriesError::InnerError(RetriesError::InnerError(4)))
    );
    assert_eq!(stacked.inner.inner.invocations(), 4);
}

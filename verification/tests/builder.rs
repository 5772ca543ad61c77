use async_rate_limiter::RateLimiter;
use bees::handler::ScriptedHandler;
use bees::net::bodies::Body;
use bees::net::bodies::TextBody;
use bees::net::client::Client;
use bees::net::client::HttpVerb;
use bees::net::client::RawClient;
use bees::net::net_error::NetError;
use bees::net::request::RequestBuilder;
use bees::resources::dyn_resource::DynResource;
use bees::resources::resource_handler::ResourceManager;
use bees::utils::error::Error;
use bees::utils::format_string::FormatString;

fn test_builder() -> RequestBuilder {
    let client = Client::new(RawClient(reqwest::Client::new()), RateLimiter::new(2));
    client.get_raw_request_builder(&HttpVerb::GET, "https://example.com/")
}

#[test]
fn accumulated_state_builds_a_clonable_request() {
    let req = test_builder()
        .header("x-token", "abc")
        .bearer_auth("secret")
        .timeout(2500)
        .body("payload".to_string())
        .build()
        .unwrap();
    assert!(req.is_clonable());
}

#[test]
fn invalid_bearer_token_poisons_the_build() {
    let poisoned = test_builder().bearer_auth("bad\ntoken").bearer_auth("good");
    match poisoned.build() {
        Err(NetError::ReqwestError(msg)) => assert!(!msg.is_empty()),
        _ => panic!("expected the stored bearer error to surface at build"),
    }
    let clean = test_builder().bearer_auth("good").build();
    assert!(clean.is_ok());
}

#[test]
fn invalid_header_fails_the_build() {
    let outcome = test_builder().header("bad name", "v").build();
    match outcome {
        Err(NetError::ReqwestError(msg)) => assert!(!msg.is_empty()),
        _ => panic!("expected a build error"),
    }
}

#[test]
fn streaming_body_is_not_clonable() {
    let req = test_builder()
        .body_stream(vec!["a".to_string(), "b".to_string()])
        .build()
        .unwrap();
    assert!(!req.is_clonable());
}

#[test]
fn text_body_attaches_the_resolved_template() {
    let mut rm = ResourceManager::new();
    rm.add_dyn_resource(DynResource { ident: "who".to_string(), value: "world".to_string() });
    let body = Body::new(TextBody(FormatString::new("hello <who>").unwrap()));
    let built = body.add_body(test_builder(), &rm).unwrap().build().unwrap();
    assert!(built.is_clonable());
}

#[test]
fn text_body_fails_on_a_missing_resource() {
    let rm = ResourceManager::new();
    let body = Body::new(TextBody(FormatString::new("hello <who>").unwrap()));
    match body.add_body(test_builder(), &rm) {
        Err(Error::NoResFound(name)) => assert_eq!(name, "who"),
        _ => panic!("expected NoResFound"),
    }
}

#[test]
fn prepare_send_runs_through_the_handler() {
    let runner = test_builder()
        .prepare_send(ScriptedHandler::new(vec![Ok(11)]))
        .unwrap();
    assert_eq!(runner.run(), Ok(11));
}

use async_rate_limiter::RateLimiter;
use bees::capability::Capability;
use bees::capability::apply_capability_chain;
use bees::net::client::Client;
use bees::net::client::HttpVerb;
use bees::net::client::RawClient;
use bees::net::request::RequestBuilder;
use bees::resources::resource_handler::ResourceManager;
use bees::utils::error::Error;
use std::cell::Cell;

fn test_builder() -> RequestBuilder {
    let client = Client::new(RawClient(reqwest::Client::new()), RateLimiter::new(2));
    client.get_raw_request_builder(&HttpVerb::GET, "https://example.com/")
}

struct CountingCap {
    id: u64,
    fail: bool,
    applied: Cell<u32>,
}

impl CountingCap {
    fn ok(id: u64) -> CountingCap {
        CountingCap { id, fail: false, applied: Cell::new(0) }
    }

    fn failing(id: u64) -> CountingCap {
        CountingCap { id, fail: true, applied: Cell::new(0) }
    }
}

impl Capability for CountingCap {
    fn apply(
        &self,
        request: RequestBuilder,
        _resources: &ResourceManager,
    ) -> Result<RequestBuilder, Error> {
        self.applied.set(self.applied.get() + 1);
        if self.fail {
            Err(Error::CapabilityError(format!("cap {} failed", self.id)))
        } else {
            Ok(request.header("x-cap", &format!("{}", self.id)))
        }
    }
}

#[test]
fn chain_short_circuits_at_the_first_failure() {
    let rm = ResourceManager::new();
    let caps = vec![CountingCap::ok(1), CountingCap::failing(2), CountingCap::ok(3)];
    let outcome = apply_capability_chain(&caps, test_builder(), &rm);
    match outcome {
        Err(Error::CapabilityError(msg)) => assert_eq!(msg, "cap 2 failed"),
        _ => panic!("expected the second capability's error"),
    }
    assert_eq!(caps[0].applied.get(), 1);
    assert_eq!(caps[1].applied.get(), 1);
    assert_eq!(caps[2].applied.get(), 0);
}

#[test]
fn chain_applies_all_on_success() {
    let rm = ResourceManager::new();
    let caps = vec![CountingCap::ok(1), CountingCap::ok(2), CountingCap::ok(3)];
    let outcome = apply_capability_chain(&caps, test_builder(), &rm);
    assert!(outcome.is_ok());
    for cap in &caps {
        assert_eq!(cap.applied.get(), 1);
    }
}

#[test]
fn empty_chain_returns_the_builder() {
    let rm = ResourceManager::new();
    let caps: Vec<CountingCap> = Vec::new();
    let outcome = apply_capability_chain(&caps, test_builder(), &rm);
    assert!(outcome.is_ok());
}

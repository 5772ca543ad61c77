use vstd::prelude::*;

verus! {

#[verifier::external_type_specification]
#[verifier::external_body]
pub struct ExUrlParseError(url::ParseError);

/// Errors arising at the transport boundary: either the HTTP library
/// rejected the accumulated request state (the message describes the
/// cause), or a string could not be parsed as a URL.
#[derive(Debug)]
pub enum NetError {
    ReqwestError(String),
    NotAValidUrl(url::ParseError),
}

} // verus!

pub mod bodies;
pub mod client;
pub mod net_error;
pub mod request;

pub use bodies::Body;
pub use bodies::BodyAdder;
pub use bodies::TextBody;
pub use client::Client;
pub use client::EndpointRunner;
pub use client::EndpointRunnerError;
pub use client::HttpVerb;
pub use request::Request;
pub use request::RequestBuilder;
pub use request::RequestRunner;

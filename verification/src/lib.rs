//! The decision core of an outbound HTTP bridge.
//!
//! A front-end describes a request (method, URL, headers, body); the bridge
//! validates it, says what is to be sent, and turns what the transport reports
//! into a response or into one of three errors. The network itself is not
//! touched here: the caller performs the exchange and reports its outcome.

pub mod bridge;
pub mod error;
pub mod headers;
pub mod method;
pub mod request;
pub mod response;

pub use bridge::{conclude, execute, prepare, TransportOutcome};
pub use error::BridgeError;
pub use headers::Headers;
pub use method::Verb;
pub use request::{HttpRequest, OutgoingCall};
pub use response::HttpResponse;

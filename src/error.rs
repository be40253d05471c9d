//! The ways a call can fail. None is retried: each is handed to the caller.

use crate::text::{decimal, u64_text};
use vstd::prelude::*;

verus! {

/// Why a call failed.
#[derive(Clone, Debug)]
pub enum ClientError {
    /// The request could not be assembled; nothing was sent.
    RequestCreationError(String),
    /// The server answered with success, but the body did not have the
    /// expected shape. Carries the decoder's message.
    DeserializationError(String),
    /// The server answered with a status outside 200 to 299. Carries the
    /// status code and the body text as received.
    ServerError(u16, String),
    /// The transport failed: connection, name resolution, TLS, timeout, or
    /// reading the body of a failed response.
    NetworkError(String),
}

/// The human-readable description of an error.
pub open spec fn describe(e: ClientError) -> Seq<char> {
    match e {
        ClientError::RequestCreationError(m) => "Request creation error: "@ + m@,
        ClientError::DeserializationError(m) => "Deserialization error: "@ + m@,
        ClientError::ServerError(code, body) => "Nomad API error: ["@ + decimal(code as nat)
            + "] '"@ + body@ + "'"@,
        ClientError::NetworkError(m) => "Network error: "@ + m@,
    }
}

impl ClientError {
    /// The human-readable description of the error.
    pub fn message(&self) -> (r: String)
        ensures
            r@ == describe(*self),
    {
        match self {
            ClientError::RequestCreationError(m) => String::from_str("Request creation error: ").concat(
                m.as_str(),
            ),
            ClientError::DeserializationError(m) => String::from_str(
                "Deserialization error: ",
            ).concat(m.as_str()),
            ClientError::ServerError(code, body) => {
                let code_text = u64_text(*code as u64);
                String::from_str("Nomad API error: [").concat(code_text.as_str()).concat(
                    "] '",
                ).concat(body.as_str()).concat("'")
            },
            ClientError::NetworkError(m) => String::from_str("Network error: ").concat(m.as_str()),
        }
    }
}

} // verus!

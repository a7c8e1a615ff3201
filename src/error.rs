use vstd::prelude::*;

verus! {

/// Failures reported to a caller of the client interface.
#[derive(Debug, Clone, Copy, PartialEq, Eq, Structural)]
pub enum ClientError {
    InvalidMethod,
    InvalidParams,
    ConnectionError,
}

/// The human-readable text of each error.
pub open spec fn error_text(e: ClientError) -> Seq<char> {
    match e {
        ClientError::InvalidMethod => "Requested method does not exist"@,
        ClientError::InvalidParams => "Invalid params provided"@,
        ClientError::ConnectionError => "Connection error"@,
    }
}

impl ClientError {
    /// The message shown to a user for this error.
    pub fn message(&self) -> (r: String)
        ensures
            r@ == error_text(*self),
    {
        match self {
            ClientError::InvalidMethod => "Requested method does not exist".to_owned(),
            ClientError::InvalidParams => "Invalid params provided".to_owned(),
            ClientError::ConnectionError => "Connection error".to_owned(),
        }
    }
}

} // verus!

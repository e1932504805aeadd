use crate::responses::ResponseParameters;
use vstd::prelude::*;

verus! {

/// Contains all possible errors
#[derive(Debug)]
pub enum Error {
    /// The transport failed; holds what the transport said of the failure
    Hyper(String),
    /// The request could not be put together
    RequestBuilt(String),
    /// The payload of a response could not be read; holds what the decoder
    /// said of the failure
    Serde(String),
    /// Telegram bot api error
    Api {
        /// Error code returned by api
        error_code: i32,
        /// Human-readable description of the error
        description: String,
        /// Parameters which can help to automatically handle the error
        parameters: Option<ResponseParameters>,
    },
}

/// Status code that the API answers with when a client asks too often.
pub const TOO_MANY_REQUESTS: i32 = 429;

impl Error {
    /// The status code that the API sent, if this error is an answer of the API.
    pub open spec fn spec_status_code(&self) -> Option<i32> {
        match self {
            Error::Api { error_code, .. } => Some(*error_code),
            _ => None,
        }
    }

    /// The number of seconds that the API asked the client to wait, if it did.
    pub open spec fn spec_retry_after(&self) -> Option<i64> {
        match self {
            Error::Api { parameters: Some(parameters), .. } => parameters.retry_after,
            _ => None,
        }
    }

    /// The wait in whole seconds that a rate-limiting answer asks for: the
    /// answer has status 429 and carries a hint that is not negative and fits
    /// in 32 bits.
    pub open spec fn spec_rate_limit(&self) -> Option<u32> {
        match (self.spec_status_code(), self.spec_retry_after()) {
            (Some(code), Some(seconds)) => if code == TOO_MANY_REQUESTS && 0 <= seconds
                <= u32::MAX {
                Some(seconds as u32)
            } else {
                None
            },
            _ => None,
        }
    }

    /// True for an error that says the payload of a response was unreadable.
    pub open spec fn spec_is_malformed_payload(&self) -> bool {
        self is Serde
    }

    /// The status code that the API sent, if this error is an answer of the API.
    #[verifier::when_used_as_spec(spec_status_code)]
    pub fn status_code(&self) -> (code: Option<i32>)
        ensures
            code == self.spec_status_code(),
    {
        match self {
            Error::Api { error_code, .. } => Some(*error_code),
            _ => None,
        }
    }

    /// The number of seconds that the API asked the client to wait, if it did.
    #[verifier::when_used_as_spec(spec_retry_after)]
    pub fn retry_after(&self) -> (seconds: Option<i64>)
        ensures
            seconds == self.spec_retry_after(),
    {
        match self {
            Error::Api { parameters: Some(parameters), .. } => parameters.retry_after,
            _ => None,
        }
    }

    /// The wait that a rate-limiting answer asks for, if this error is one.
    #[verifier::when_used_as_spec(spec_rate_limit)]
    pub fn rate_limit(&self) -> (wait: Option<u32>)
        ensures
            wait == self.spec_rate_limit(),
    {
        match (self.status_code(), self.retry_after()) {
            (Some(code), Some(seconds)) => {
                if code == TOO_MANY_REQUESTS && 0 <= seconds && seconds <= 0xffff_ffff {
                    Some(seconds as u32)
                } else {
                    None
                }
            },
            _ => None,
        }
    }

    /// True for an error that says the payload of a response was unreadable.
    #[verifier::when_used_as_spec(spec_is_malformed_payload)]
    pub fn is_malformed_payload(&self) -> (malformed: bool)
        ensures
            malformed == self.spec_is_malformed_payload(),
    {
        match self {
            Error::Serde(_) => true,
            _ => false,
        }
    }
}

} // verus!

//! Failure kinds surfaced by the session manager.

use vstd::prelude::*;
use vstd::string::StringExecFns;

verus! {

/// Every operation either fully succeeds or returns one of these kinds.
#[derive(Debug, Clone, PartialEq, Eq)]
pub enum UrbitAPIError {
    /// Login was rejected: the response's status was not 204, its
    /// `set-cookie` header was absent or not valid text, or no identity
    /// could be derived from the credential.
    FailedToLogin,
    /// A transport-level failure (connect, timeout, I/O); carries the
    /// transport error's description.
    NetworkError(String),
}

impl UrbitAPIError {
    /// A short description of the error kind, with the transport error's
    /// text where one was recorded.
    pub fn describe(&self) -> (r: String)
        ensures
            self matches UrbitAPIError::FailedToLogin ==> r@ == "failed to login"@,
            self matches UrbitAPIError::NetworkError(m) ==> r@ == m@,
    {
        match self {
            UrbitAPIError::FailedToLogin => String::from_str("failed to login"),
            UrbitAPIError::NetworkError(m) => m.clone(),
        }
    }
}

} // verus!

//! The error kinds that the client reports.

use vstd::prelude::*;

verus! {

/// `uuid::Error`: why a text is no UUID.
#[verifier::external_type_specification]
#[verifier::external_body]
pub struct ExUuidError(uuid::Error);

/// `reqwest::Error`: why a request could not be sent, or a body not decoded.
#[verifier::external_type_specification]
#[verifier::external_body]
pub struct ExRequestError(reqwest::Error);

/// Everything that can go wrong between a caller and the gateway.
#[derive(Debug)]
pub enum HashGateError {
    /// A credential exchange or a sign-in was rejected, or was accepted without a token.
    FailedSignIn,
    /// A required configuration value is missing.
    FailedConfig,
    /// An operation was attempted on a client that holds no bearer token.
    NoClientToken,
    /// The gateway answered, but knows no such user.
    UserNotFound,
    /// The gateway answered with a status outside the success range.
    ServerError,
    /// The client identifier is not a UUID.
    Uuid(uuid::Error),
    /// The transport failed, or a body could not be decoded.
    Request(reqwest::Error),
    /// A custom attribute could not be stored.
    CouldNotSetAttribute,
    /// The username or email is already in use.
    UsernameTaken,
}

/// Renders the identifier error with `uuid::Error`'s `Debug` impl. Nothing is
/// claimed of the text.
#[verifier::external_body]
fn uuid_error_text(e: &uuid::Error) -> (s: String) {
    format!("{e:?}")
}

/// Renders the transport error with `reqwest::Error`'s `Debug` impl. Nothing is
/// claimed of the text.
#[verifier::external_body]
fn request_error_text(e: &reqwest::Error) -> (s: String) {
    format!("{e:?}")
}

impl HashGateError {
    /// The fixed text of an error kind; `None` for the two kinds that wrap an
    /// outside error, whose text is that error's own.
    pub open spec fn fixed_message(self) -> Option<Seq<char>> {
        match self {
            HashGateError::FailedSignIn => Some("Error: Sign In Attempt Failed"@),
            HashGateError::FailedConfig => Some("Error: Environment Variables Not Set"@),
            HashGateError::NoClientToken => Some("Error: HashGate Client Missing Auth Token"@),
            HashGateError::UserNotFound => Some("Error: User Not Found"@),
            HashGateError::CouldNotSetAttribute => Some("Error: Could Not Set User Attribute"@),
            HashGateError::UsernameTaken => Some(
                "Error: That Username Or Email Is Already In Use"@,
            ),
            HashGateError::ServerError => Some(
                "Error: HashGate Server Ran Into Issues With Your Request"@,
            ),
            HashGateError::Uuid(_) => None,
            HashGateError::Request(_) => None,
        }
    }

    /// The text shown to a human for this error.
    pub fn message(&self) -> (s: String)
        ensures
            self.fixed_message() matches Some(m) ==> s@ == m,
    {
        match self {
            HashGateError::FailedSignIn => String::from_str("Error: Sign In Attempt Failed"),
            HashGateError::FailedConfig => String::from_str(
                "Error: Environment Variables Not Set",
            ),
            HashGateError::NoClientToken => String::from_str(
                "Error: HashGate Client Missing Auth Token",
            ),
            HashGateError::UserNotFound => String::from_str("Error: User Not Found"),
            HashGateError::CouldNotSetAttribute => String::from_str(
                "Error: Could Not Set User Attribute",
            ),
            HashGateError::UsernameTaken => String::from_str(
                "Error: That Username Or Email Is Already In Use",
            ),
            HashGateError::ServerError => String::from_str(
                "Error: HashGate Server Ran Into Issues With Your Request",
            ),
            HashGateError::Uuid(e) => uuid_error_text(e),
            HashGateError::Request(e) => request_error_text(e),
        }
    }
}

impl From<uuid::Error> for HashGateError {
    fn from(err: uuid::Error) -> (r: HashGateError) {
        HashGateError::Uuid(err)
    }
}

impl vstd::std_specs::convert::FromSpecImpl<uuid::Error> for HashGateError {
    open spec fn obeys_from_spec() -> bool {
        true
    }

    open spec fn from_spec(err: uuid::Error) -> HashGateError {
        HashGateError::Uuid(err)
    }
}

impl From<reqwest::Error> for HashGateError {
    fn from(err: reqwest::Error) -> (r: HashGateError) {
        HashGateError::Request(err)
    }
}

impl vstd::std_specs::convert::FromSpecImpl<reqwest::Error> for HashGateError {
    open spec fn obeys_from_spec() -> bool {
        true
    }

    open spec fn from_spec(err: reqwest::Error) -> HashGateError {
        HashGateError::Request(err)
    }
}

} // verus!

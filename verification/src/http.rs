//! What the library sees of HTTP: methods, statuses, endpoints and replies.

use crate::error::HashGateError;
use vstd::prelude::*;

verus! {

/// The outcome of work that only the transport can fail: sending a request,
/// or decoding a body.
pub type Transfer<T> = Result<T, reqwest::Error>;

/// The status with which the gateway rejects a bearer token.
pub const UNAUTHORIZED: u16 = 401;

/// Whether a status lies in the success range, 200 to 299.
pub open spec fn success_status(status: u16) -> bool {
    200 <= status < 300
}

/// Whether `status` lies in the success range.
pub fn is_success(status: u16) -> (r: bool)
    ensures
        r == success_status(status),
{
    200 <= status && status < 300
}

/// The method of a request.
#[derive(Debug, Clone, Copy, PartialEq, Eq, Structural)]
pub enum Method {
    Get,
    Post,
}

/// A request as far as the client decides it: the bearer token is added per
/// attempt, and the body stays with the caller.
#[derive(Debug)]
pub struct Request {
    pub method: Method,
    pub url: String,
}

/// A reply of the gateway: its status, and its body in whatever form the
/// caller holds it.
#[derive(Debug)]
pub struct Reply<B> {
    pub status: u16,
    pub body: B,
}

/// The gateway's endpoints, relative to the base URL.
#[derive(Debug, Clone, Copy, PartialEq, Eq, Structural)]
pub enum Endpoint {
    ClientAuth,
    SignIn,
    Create,
    Get,
    GetByToken,
    SetAttribute,
    GetAttributes,
    GetAttribute,
    InitVerification,
    CompleteVerification,
    UpdatePassword,
    InitPasswordReset,
    VerifyPasswordReset,
    ResetPassword,
}

impl Endpoint {
    /// The endpoint's path below the base URL.
    pub open spec fn spec_path(self) -> Seq<char> {
        match self {
            Endpoint::ClientAuth => "client/auth"@,
            Endpoint::SignIn => "user/sign-in"@,
            Endpoint::Create => "user/create"@,
            Endpoint::Get => "user/get"@,
            Endpoint::GetByToken => "user/get-by-token"@,
            Endpoint::SetAttribute => "user/set-attribute"@,
            Endpoint::GetAttributes => "user/get-attributes"@,
            Endpoint::GetAttribute => "user/get-attribute"@,
            Endpoint::InitVerification => "user/init-verification"@,
            Endpoint::CompleteVerification => "user/complete-verification"@,
            Endpoint::UpdatePassword => "user/update-password"@,
            Endpoint::InitPasswordReset => "user/init-password-reset"@,
            Endpoint::VerifyPasswordReset => "user/verify-password-reset"@,
            Endpoint::ResetPassword => "user/reset-password"@,
        }
    }

    /// The endpoint's path below the base URL.
    pub fn path(self) -> (p: &'static str)
        ensures
            p@ == self.spec_path(),
    {
        match self {
            Endpoint::ClientAuth => "client/auth",
            Endpoint::SignIn => "user/sign-in",
            Endpoint::Create => "user/create",
            Endpoint::Get => "user/get",
            Endpoint::GetByToken => "user/get-by-token",
            Endpoint::SetAttribute => "user/set-attribute",
            Endpoint::GetAttributes => "user/get-attributes",
            Endpoint::GetAttribute => "user/get-attribute",
            Endpoint::InitVerification => "user/init-verification",
            Endpoint::CompleteVerification => "user/complete-verification",
            Endpoint::UpdatePassword => "user/update-password",
            Endpoint::InitPasswordReset => "user/init-password-reset",
            Endpoint::VerifyPasswordReset => "user/verify-password-reset",
            Endpoint::ResetPassword => "user/reset-password",
        }
    }
}

/// One call of an operation: the request, and the record that is its body.
#[derive(Debug)]
pub struct Call<P> {
    pub request: Request,
    pub payload: P,
}

/// How a request to the gateway ended, with the reply's body decoded as `B`:
/// the request may have failed, and so may the decoding.
pub type Answer<B> = Result<Reply<Transfer<B>>, HashGateError>;

/// The body of an answer whose reply has a success status; `otherwise` for a
/// reply with any other status, whose body is not looked at. A request that
/// failed keeps its error, and a body that did not decode is the transport's
/// error.
pub open spec fn decoded_on_success<B>(answer: Answer<B>, otherwise: HashGateError) -> Result<
    B,
    HashGateError,
> {
    match answer {
        Err(e) => Err(e),
        Ok(reply) => if success_status(reply.status) {
            match reply.body {
                Ok(body) => Ok(body),
                Err(e) => Err(HashGateError::Request(e)),
            }
        } else {
            Err(otherwise)
        },
    }
}

/// Reads the body of an answer whose reply has a success status, and fails
/// with `otherwise` on any other status.
pub fn read_on_success<B>(answer: Answer<B>, otherwise: HashGateError) -> (r: Result<
    B,
    HashGateError,
>)
    ensures
        r == decoded_on_success(answer, otherwise),
{
    match answer {
        Err(e) => Err(e),
        Ok(reply) => {
            if is_success(reply.status) {
                match reply.body {
                    Ok(body) => Ok(body),
                    Err(e) => Err(HashGateError::from(e)),
                }
            } else {
                Err(otherwise)
            }
        },
    }
}

/// The value of the `Authorization` header for a bearer token.
pub open spec fn bearer_text(token: Seq<char>) -> Seq<char> {
    "Bearer "@ + token
}

/// The value of the `Authorization` header for `token`.
pub fn bearer(token: &str) -> (header: String)
    ensures
        header@ == bearer_text(token@),
{
    String::from_str("Bearer ").concat(token)
}

} // verus!

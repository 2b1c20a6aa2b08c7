//! What the client sends, one record per endpoint.

use crate::guid::Guid;
use vstd::prelude::*;

verus! {

/// Client credential exchange.
#[derive(Debug)]
pub struct ClientAuthReq {
    pub client_id: String,
    pub client_secret: String,
}

/// User registration.
#[derive(Debug)]
pub struct UserRegistrationReq {
    pub username: String,
    pub email: Option<String>,
    pub password: String,
    pub group_id: Option<i32>,
}

/// User sign-in.
#[derive(Debug)]
pub struct UserAuthReq {
    pub username: String,
    pub password: String,
}

/// Look a user up by id.
#[derive(Debug)]
pub struct GetUserByIdReq {
    pub user_id: String,
}

/// Look a user up by a token of theirs.
#[derive(Debug)]
pub struct GetUserByTokenReq {
    pub token: String,
}

/// Store one custom attribute of a user.
#[derive(Debug)]
pub struct SetUserCustomAttributeReq {
    pub user_id: Guid,
    pub key: String,
    pub value: serde_json::Value,
}

/// Read all custom attributes of a user.
#[derive(Debug)]
pub struct GetUserCustomAttributesReq {
    pub user_id: Guid,
}

/// Read one custom attribute of a user.
#[derive(Debug)]
pub struct GetUserCustomAttributeReq {
    pub user_id: Guid,
    pub key: String,
}

/// Verify a user's email with a code.
#[derive(Debug)]
pub struct VerifyUserEmailReq {
    pub user_id: Guid,
    pub code: String,
}

/// Send a verification email to a user.
#[derive(Debug)]
pub struct SendVerificationEmailReq {
    pub user_id: Guid,
}

/// Open a verification session for a user.
#[derive(Debug)]
pub struct InitVerificationReq {
    pub user_id: Guid,
}

/// Complete a verification session.
#[derive(Debug)]
pub struct VerifyReq {
    pub verification_session_id: Guid,
    pub verification_code: String,
}

/// Replace a user's password.
#[derive(Debug)]
pub struct UpdateUserPasswordReq {
    pub user_id: Guid,
    pub new_password: String,
}

/// Open a password reset for the user with this email.
#[derive(Debug)]
pub struct InitPasswordResetReq {
    pub email: String,
}

/// Confirm a password reset with the code that was sent out.
#[derive(Debug)]
pub struct VerifyPasswordResetReq {
    pub verification_session_id: Guid,
    pub verification_code: String,
}

/// Set the new password of a confirmed reset.
#[derive(Debug)]
pub struct ResetPasswordReq {
    pub password_reset_session_id: Guid,
    pub new_password: String,
}

} // verus!

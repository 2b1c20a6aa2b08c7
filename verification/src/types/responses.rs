//! What the gateway answers. Every record carries the gateway's success flag.

use crate::guid::Guid;
use crate::operations::user::User;
use vstd::prelude::*;

verus! {

/// Answer to a credential exchange or a sign-in.
#[derive(Debug)]
pub struct AuthResponse {
    pub token: Option<String>,
    pub message: Option<String>,
    pub was_successful: bool,
}

impl Default for AuthResponse {
    /// The empty answer: nothing in it, and no success.
    fn default() -> (r: AuthResponse)
        ensures
            r.token is None,
            r.message is None,
            !r.was_successful,
    {
        AuthResponse {
            token: None,
            message: None,
            was_successful: false,
        }
    }
}

/// Answer to a registration.
#[derive(Debug)]
pub struct CreateUserResp {
    pub user: Option<User>,
    pub message: Option<String>,
    pub was_successful: bool,
}

impl Default for CreateUserResp {
    /// The empty answer: nothing in it, and no success.
    fn default() -> (r: CreateUserResp)
        ensures
            r.user is None,
            r.message is None,
            !r.was_successful,
    {
        CreateUserResp {
            user: None,
            message: None,
            was_successful: false,
        }
    }
}

/// Answer to a user lookup.
#[derive(Debug)]
pub struct GetUserResp {
    pub user: Option<User>,
    pub was_successful: bool,
}

impl Default for GetUserResp {
    /// The empty answer: nothing in it, and no success.
    fn default() -> (r: GetUserResp)
        ensures
            r.user is None,
            !r.was_successful,
    {
        GetUserResp {
            user: None,
            was_successful: false,
        }
    }
}

/// Answer to the creation of a pool.
#[derive(Debug)]
pub struct CreatePoolResp {
    pub user: Option<User>,
    pub was_successful: bool,
}

impl Default for CreatePoolResp {
    /// The empty answer: nothing in it, and no success.
    fn default() -> (r: CreatePoolResp)
        ensures
            r.user is None,
            !r.was_successful,
    {
        CreatePoolResp {
            user: None,
            was_successful: false,
        }
    }
}

/// All custom attributes of a user.
#[derive(Debug)]
pub struct GetUserCustomAttributesResp {
    pub attributes: serde_json::Value,
    pub was_successful: bool,
}

impl Default for GetUserCustomAttributesResp {
    /// The empty answer: nothing in it, and no success.
    fn default() -> (r: GetUserCustomAttributesResp)
        ensures
            !r.was_successful,
    {
        GetUserCustomAttributesResp {
            attributes: serde_json::Value::default(),
            was_successful: false,
        }
    }
}

/// One custom attribute of a user.
#[derive(Debug)]
pub struct GetUserCustomAttributeResp {
    pub attribute: serde_json::Value,
    pub was_successful: bool,
}

impl Default for GetUserCustomAttributeResp {
    /// The empty answer: nothing in it, and no success.
    fn default() -> (r: GetUserCustomAttributeResp)
        ensures
            !r.was_successful,
    {
        GetUserCustomAttributeResp {
            attribute: serde_json::Value::default(),
            was_successful: false,
        }
    }
}

/// Answer to a password update.
#[derive(Debug)]
pub struct UpdateUserPasswordResp {
    pub message: String,
    pub was_successful: bool,
}

impl Default for UpdateUserPasswordResp {
    /// The empty answer: nothing in it, and no success.
    fn default() -> (r: UpdateUserPasswordResp)
        ensures
            r.message@ == Seq::<char>::empty(),
            !r.was_successful,
    {
        UpdateUserPasswordResp {
            message: String::new(),
            was_successful: false,
        }
    }
}

/// The verification session of a password reset.
#[derive(Debug)]
pub struct InitPasswordResetResp {
    pub verification_session_id: Guid,
    pub verification_code: String,
    pub was_successful: bool,
}

impl Default for InitPasswordResetResp {
    /// The empty answer: nothing in it, and no success.
    fn default() -> (r: InitPasswordResetResp)
        ensures
            r.verification_session_id.bits == 0,
            r.verification_code@ == Seq::<char>::empty(),
            !r.was_successful,
    {
        InitPasswordResetResp {
            verification_session_id: Guid::from_bits(0),
            verification_code: String::new(),
            was_successful: false,
        }
    }
}

/// The verification session of a user.
#[derive(Debug)]
pub struct InitVerificationResp {
    pub verification_session_id: Guid,
    pub verification_code: String,
    pub was_successful: bool,
}

impl Default for InitVerificationResp {
    /// The empty answer: nothing in it, and no success.
    fn default() -> (r: InitVerificationResp)
        ensures
            r.verification_session_id.bits == 0,
            r.verification_code@ == Seq::<char>::empty(),
            !r.was_successful,
    {
        InitVerificationResp {
            verification_session_id: Guid::from_bits(0),
            verification_code: String::new(),
            was_successful: false,
        }
    }
}

/// Answer to a completed verification.
#[derive(Debug)]
pub struct VerificationResp {
    pub is_verified: bool,
    pub user_id: Option<Guid>,
    pub message: String,
    pub was_successful: bool,
}

impl Default for VerificationResp {
    /// The empty answer: nothing in it, and no success.
    fn default() -> (r: VerificationResp)
        ensures
            !r.is_verified,
            r.user_id is None,
            r.message@ == Seq::<char>::empty(),
            !r.was_successful,
    {
        VerificationResp {
            is_verified: false,
            user_id: None,
            message: String::new(),
            was_successful: false,
        }
    }
}

/// Answer to a confirmed password reset.
#[derive(Debug)]
pub struct VerifyPasswordResetResp {
    pub password_reset_session_id: Option<Guid>,
    pub message: String,
    pub was_successful: bool,
}

impl Default for VerifyPasswordResetResp {
    /// The empty answer: nothing in it, and no success.
    fn default() -> (r: VerifyPasswordResetResp)
        ensures
            r.password_reset_session_id is None,
            r.message@ == Seq::<char>::empty(),
            !r.was_successful,
    {
        VerifyPasswordResetResp {
            password_reset_session_id: None,
            message: String::new(),
            was_successful: false,
        }
    }
}

/// Answer to a password reset.
#[derive(Debug)]
pub struct ResetPasswordResp {
    pub message: String,
    pub was_successful: bool,
}

impl Default for ResetPasswordResp {
    /// The empty answer: nothing in it, and no success.
    fn default() -> (r: ResetPasswordResp)
        ensures
            r.message@ == Seq::<char>::empty(),
            !r.was_successful,
    {
        ResetPasswordResp {
            message: String::new(),
            was_successful: false,
        }
    }
}

} // verus!

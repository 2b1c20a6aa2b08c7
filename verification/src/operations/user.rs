//! Users, and the operations on them.
//!
//! Each operation has two halves. The first, named `.._call`, builds the call
//! on a client: it fails with `NoClientToken` without a token, before
//! anything is sent. The second, named as the operation, reads the gateway's
//! answer, and reads no body of a reply whose status is outside the success
//! range.

use crate::client::{posted, HashGateClient};
use crate::error::HashGateError;
use crate::guid::{uuid_text, Guid};
use crate::http::{
    decoded_on_success, is_success, read_on_success, success_status, Answer, Call, Endpoint, Reply,
};
use crate::types::requests::{
    GetUserByIdReq, GetUserByTokenReq, GetUserCustomAttributeReq, GetUserCustomAttributesReq,
    InitPasswordResetReq, InitVerificationReq, ResetPasswordReq, SetUserCustomAttributeReq,
    UpdateUserPasswordReq, UserAuthReq, UserRegistrationReq, VerifyPasswordResetReq, VerifyReq,
};
use crate::types::responses::{
    AuthResponse, CreateUserResp, GetUserCustomAttributeResp, GetUserCustomAttributesResp,
    GetUserResp, InitPasswordResetResp, InitVerificationResp, ResetPasswordResp,
    UpdateUserPasswordResp, VerificationResp, VerifyPasswordResetResp,
};
use vstd::prelude::*;

verus! {

/// A user as the gateway describes them.
#[derive(Debug)]
pub struct User {
    pub id: Guid,
    pub username: String,
    pub email: Option<String>,
    pub is_verified: bool,
    pub creation_date: chrono::NaiveDateTime,
    pub updated_date: chrono::NaiveDateTime,
    pub custom_attributes: serde_json::Value,
}

impl Clone for User {
    fn clone(&self) -> (r: User)
        ensures
            r == *self,
    {
        User {
            id: self.id,
            username: self.username.clone(),
            email: match &self.email {
                Some(email) => Some(email.clone()),
                None => None,
            },
            is_verified: self.is_verified,
            creation_date: self.creation_date,
            updated_date: self.updated_date,
            custom_attributes: self.custom_attributes.clone(),
        }
    }
}

/// The group that administrators are registered in.
pub const ADMIN_GROUP: i32 = 1;

/// The user that a lookup found: a body without a user means that there is
/// none.
pub open spec fn found(body: Result<GetUserResp, HashGateError>) -> Result<User, HashGateError> {
    match body {
        Err(e) => Err(e),
        Ok(body) => match body.user {
            Some(user) => Ok(user),
            None => Err(HashGateError::UserNotFound),
        },
    }
}

/// The token that a sign-in or a registration issued: a body without a token
/// means that the gateway accepted nothing.
pub open spec fn issued(body: Result<AuthResponse, HashGateError>) -> Result<
    String,
    HashGateError,
> {
    match body {
        Err(e) => Err(e),
        Ok(body) => match body.token {
            Some(token) => Ok(token),
            None => Err(HashGateError::FailedSignIn),
        },
    }
}

fn user_in(body: Result<GetUserResp, HashGateError>) -> (r: Result<User, HashGateError>)
    ensures
        r == found(body),
{
    match body {
        Err(e) => Err(e),
        Ok(body) => match body.user {
            Some(user) => Ok(user),
            None => Err(HashGateError::UserNotFound),
        },
    }
}

fn token_in(body: Result<AuthResponse, HashGateError>) -> (r: Result<String, HashGateError>)
    ensures
        r == issued(body),
{
    match body {
        Err(e) => Err(e),
        Ok(body) => match body.token {
            Some(token) => Ok(token),
            None => Err(HashGateError::FailedSignIn),
        },
    }
}

impl User {
    /// The call that looks up the user with this id.
    pub fn try_from_id_call(id: Guid, client: &HashGateClient) -> (r: Result<
        Call<GetUserByIdReq>,
        HashGateError,
    >)
        ensures
            posted(client@, Endpoint::Get, r),
            r matches Ok(call) ==> call.payload.user_id@ == uuid_text(id.bits),
    {
        client.call(Endpoint::Get, GetUserByIdReq { user_id: id.text() })
    }

    /// The user that a lookup by id found: `ServerError` on a status outside
    /// the success range, `UserNotFound` on a body that names no user.
    pub fn try_from_id(answer: Answer<GetUserResp>) -> (r: Result<User, HashGateError>)
        ensures
            r == found(decoded_on_success(answer, HashGateError::ServerError)),
    {
        user_in(read_on_success(answer, HashGateError::ServerError))
    }

    /// The call that looks up the user who holds this token.
    pub fn try_from_token_call(token: &str, client: &HashGateClient) -> (r: Result<
        Call<GetUserByTokenReq>,
        HashGateError,
    >)
        ensures
            posted(client@, Endpoint::GetByToken, r),
            r matches Ok(call) ==> call.payload.token@ == token@,
    {
        client.call(Endpoint::GetByToken, GetUserByTokenReq { token: String::from_str(token) })
    }

    /// The user that a lookup by token found: `ServerError` on a status
    /// outside the success range, `UserNotFound` on a body that names no user.
    pub fn try_from_token(answer: Answer<GetUserResp>) -> (r: Result<User, HashGateError>)
        ensures
            r == found(decoded_on_success(answer, HashGateError::ServerError)),
    {
        user_in(read_on_success(answer, HashGateError::ServerError))
    }

    /// The call that stores `value` under `key` among this user's custom
    /// attributes.
    pub fn set_custom_attribute_call(
        &self,
        client: &HashGateClient,
        key: &str,
        value: &serde_json::Value,
    ) -> (r: Result<Call<SetUserCustomAttributeReq>, HashGateError>)
        ensures
            posted(client@, Endpoint::SetAttribute, r),
            r matches Ok(call) ==> call.payload.user_id == self.id && call.payload.key@ == key@
                && call.payload.value == *value,
    {
        let payload = SetUserCustomAttributeReq {
            user_id: self.id,
            key: String::from_str(key),
            value: value.clone(),
        };
        client.call(Endpoint::SetAttribute, payload)
    }

    /// Whether the attribute was stored: it was if the gateway replied with
    /// a success status. Any other status is `ServerError`. A request that
    /// came to no reply is `CouldNotSetAttribute`, whatever went wrong.
    pub fn set_custom_attribute<R>(answer: Result<Reply<R>, HashGateError>) -> (r: Result<
        (),
        HashGateError,
    >)
        ensures
            answer matches Ok(reply) && success_status(reply.status) ==> r is Ok,
            answer matches Ok(reply) && !success_status(reply.status) ==> r matches Err(
                HashGateError::ServerError,
            ),
            answer is Err ==> r matches Err(HashGateError::CouldNotSetAttribute),
    {
        match answer {
            Ok(reply) => {
                if is_success(reply.status) {
                    Ok(())
                } else {
                    Err(HashGateError::ServerError)
                }
            },
            Err(_) => Err(HashGateError::CouldNotSetAttribute),
        }
    }

    /// The call that reads all custom attributes of this user.
    pub fn get_custom_attributes_call(&self, client: &HashGateClient) -> (r: Result<
        Call<GetUserCustomAttributesReq>,
        HashGateError,
    >)
        ensures
            posted(client@, Endpoint::GetAttributes, r),
            r matches Ok(call) ==> call.payload.user_id == self.id,
    {
        client.call(Endpoint::GetAttributes, GetUserCustomAttributesReq { user_id: self.id })
    }

    /// The custom attributes that the gateway answered with, or `ServerError`
    /// on a status outside the success range.
    pub fn get_custom_attributes(answer: Answer<GetUserCustomAttributesResp>) -> (r: Result<
        serde_json::Value,
        HashGateError,
    >)
        ensures
            match decoded_on_success(answer, HashGateError::ServerError) {
                Ok(body) => r == Ok::<serde_json::Value, HashGateError>(body.attributes),
                Err(e) => r == Err::<serde_json::Value, HashGateError>(e),
            },
    {
        match read_on_success(answer, HashGateError::ServerError) {
            Ok(body) => Ok(body.attributes),
            Err(e) => Err(e),
        }
    }

    /// The call that reads the custom attribute of this user under `key`.
    pub fn get_custom_attribute_call(&self, client: &HashGateClient, key: &str) -> (r: Result<
        Call<GetUserCustomAttributeReq>,
        HashGateError,
    >)
        ensures
            posted(client@, Endpoint::GetAttribute, r),
            r matches Ok(call) ==> call.payload.user_id == self.id && call.payload.key@ == key@,
    {
        client.call(
            Endpoint::GetAttribute,
            GetUserCustomAttributeReq { user_id: self.id, key: String::from_str(key) },
        )
    }

    /// The custom attribute that the gateway answered with, or `ServerError`
    /// on a status outside the success range.
    pub fn get_custom_attribute(answer: Answer<GetUserCustomAttributeResp>) -> (r: Result<
        serde_json::Value,
        HashGateError,
    >)
        ensures
            match decoded_on_success(answer, HashGateError::ServerError) {
                Ok(body) => r == Ok::<serde_json::Value, HashGateError>(body.attribute),
                Err(e) => r == Err::<serde_json::Value, HashGateError>(e),
            },
    {
        match read_on_success(answer, HashGateError::ServerError) {
            Ok(body) => Ok(body.attribute),
            Err(e) => Err(e),
        }
    }

    /// The call that opens a verification session for this user. The code it
    /// yields can be sent to the user by email or phone.
    pub fn init_verification_call(&self, client: &HashGateClient) -> (r: Result<
        Call<InitVerificationReq>,
        HashGateError,
    >)
        ensures
            posted(client@, Endpoint::InitVerification, r),
            r matches Ok(call) ==> call.payload.user_id == self.id,
    {
        client.call(Endpoint::InitVerification, InitVerificationReq { user_id: self.id })
    }

    /// The verification session that was opened, or `ServerError` on a status
    /// outside the success range.
    pub fn init_verification(answer: Answer<InitVerificationResp>) -> (r: Result<
        InitVerificationResp,
        HashGateError,
    >)
        ensures
            r == decoded_on_success(answer, HashGateError::ServerError),
    {
        read_on_success(answer, HashGateError::ServerError)
    }

    /// The call that replaces this user's password.
    pub fn update_password_call(&self, new_password: String, client: &HashGateClient) -> (r:
        Result<Call<UpdateUserPasswordReq>, HashGateError>)
        ensures
            posted(client@, Endpoint::UpdatePassword, r),
            r matches Ok(call) ==> call.payload.user_id == self.id && call.payload.new_password
                == new_password,
    {
        client.call(
            Endpoint::UpdatePassword,
            UpdateUserPasswordReq { user_id: self.id, new_password },
        )
    }

    /// The gateway's word on a password update, or `ServerError` on a status
    /// outside the success range.
    pub fn update_password(answer: Answer<UpdateUserPasswordResp>) -> (r: Result<
        UpdateUserPasswordResp,
        HashGateError,
    >)
        ensures
            r == decoded_on_success(answer, HashGateError::ServerError),
    {
        read_on_success(answer, HashGateError::ServerError)
    }
}

impl HashGateClient {
    /// The call that signs a user in.
    pub fn authenticate_user_call(&self, username: String, password: String) -> (r: Result<
        Call<UserAuthReq>,
        HashGateError,
    >)
        ensures
            posted(self@, Endpoint::SignIn, r),
            r matches Ok(call) ==> call.payload.username == username && call.payload.password
                == password,
    {
        self.call(Endpoint::SignIn, UserAuthReq { username, password })
    }

    /// The token of the user who signed in. A status outside the success
    /// range and a body without a token are both `FailedSignIn`.
    pub fn authenticate_user(answer: Answer<AuthResponse>) -> (r: Result<String, HashGateError>)
        ensures
            r == issued(decoded_on_success(answer, HashGateError::FailedSignIn)),
    {
        token_in(read_on_success(answer, HashGateError::FailedSignIn))
    }

    /// The call that registers a user, in no group.
    pub fn register_user_call(
        &self,
        username: String,
        email: Option<String>,
        password: String,
    ) -> (r: Result<Call<UserRegistrationReq>, HashGateError>)
        ensures
            posted(self@, Endpoint::Create, r),
            r matches Ok(call) ==> call.payload.username == username && call.payload.email
                == email && call.payload.password == password && call.payload.group_id
                == None::<i32>,
    {
        self.call(Endpoint::Create, UserRegistrationReq { username, email, password, group_id: None })
    }

    /// The gateway's word on a registration, or `ServerError` on a status
    /// outside the success range.
    pub fn register_user(answer: Answer<CreateUserResp>) -> (r: Result<
        CreateUserResp,
        HashGateError,
    >)
        ensures
            r == decoded_on_success(answer, HashGateError::ServerError),
    {
        read_on_success(answer, HashGateError::ServerError)
    }

    /// The call that registers an administrator: a user in `ADMIN_GROUP`.
    pub fn create_admin_call(
        &self,
        username: String,
        email: Option<String>,
        password: String,
    ) -> (r: Result<Call<UserRegistrationReq>, HashGateError>)
        ensures
            posted(self@, Endpoint::Create, r),
            r matches Ok(call) ==> call.payload.username == username && call.payload.email
                == email && call.payload.password == password && call.payload.group_id == Some(
                ADMIN_GROUP,
            ),
    {
        self.call(
            Endpoint::Create,
            UserRegistrationReq { username, email, password, group_id: Some(ADMIN_GROUP) },
        )
    }

    /// The token of the administrator who was registered. A status outside
    /// the success range and a body without a token are both `FailedSignIn`.
    pub fn create_admin(answer: Answer<AuthResponse>) -> (r: Result<String, HashGateError>)
        ensures
            r == issued(decoded_on_success(answer, HashGateError::FailedSignIn)),
    {
        token_in(read_on_success(answer, HashGateError::FailedSignIn))
    }

    /// The call that opens a password reset for the user with this email.
    /// Whoever asks for the reset still has to be shown to be that user.
    pub fn init_password_reset_call(&self, email: &str) -> (r: Result<
        Call<InitPasswordResetReq>,
        HashGateError,
    >)
        ensures
            posted(self@, Endpoint::InitPasswordReset, r),
            r matches Ok(call) ==> call.payload.email@ == email@,
    {
        self.call(Endpoint::InitPasswordReset, InitPasswordResetReq { email: String::from_str(email) })
    }

    /// The verification session of a password reset, or `ServerError` on a
    /// status outside the success range.
    pub fn init_password_reset(answer: Answer<InitPasswordResetResp>) -> (r: Result<
        InitPasswordResetResp,
        HashGateError,
    >)
        ensures
            r == decoded_on_success(answer, HashGateError::ServerError),
    {
        read_on_success(answer, HashGateError::ServerError)
    }

    /// The call that confirms a password reset with the code of its
    /// verification session.
    pub fn verify_password_reset_call(
        &self,
        verification_session_id: &Guid,
        verification_code: &str,
    ) -> (r: Result<Call<VerifyPasswordResetReq>, HashGateError>)
        ensures
            posted(self@, Endpoint::VerifyPasswordReset, r),
            r matches Ok(call) ==> call.payload.verification_session_id
                == *verification_session_id && call.payload.verification_code@
                == verification_code@,
    {
        self.call(
            Endpoint::VerifyPasswordReset,
            VerifyPasswordResetReq {
                verification_session_id: *verification_session_id,
                verification_code: String::from_str(verification_code),
            },
        )
    }

    /// The gateway's word on a confirmed password reset, or `ServerError` on
    /// a status outside the success range.
    pub fn verify_password_reset(answer: Answer<VerifyPasswordResetResp>) -> (r: Result<
        VerifyPasswordResetResp,
        HashGateError,
    >)
        ensures
            r == decoded_on_success(answer, HashGateError::ServerError),
    {
        read_on_success(answer, HashGateError::ServerError)
    }

    /// The call that sets the new password of a confirmed reset.
    pub fn reset_user_password_call(
        &self,
        password_reset_session_id: &Guid,
        new_password: &str,
    ) -> (r: Result<Call<ResetPasswordReq>, HashGateError>)
        ensures
            posted(self@, Endpoint::ResetPassword, r),
            r matches Ok(call) ==> call.payload.password_reset_session_id
                == *password_reset_session_id && call.payload.new_password@ == new_password@,
    {
        self.call(
            Endpoint::ResetPassword,
            ResetPasswordReq {
                password_reset_session_id: *password_reset_session_id,
                new_password: String::from_str(new_password),
            },
        )
    }

    /// The gateway's word on a password reset, or `ServerError` on a status
    /// outside the success range.
    pub fn reset_user_password(answer: Answer<ResetPasswordResp>) -> (r: Result<
        ResetPasswordResp,
        HashGateError,
    >)
        ensures
            r == decoded_on_success(answer, HashGateError::ServerError),
    {
        read_on_success(answer, HashGateError::ServerError)
    }

    /// The call that completes a verification session with the user's code.
    pub fn verify_call(&self, verification_session_id: Guid, code: &str) -> (r: Result<
        Call<VerifyReq>,
        HashGateError,
    >)
        ensures
            posted(self@, Endpoint::CompleteVerification, r),
            r matches Ok(call) ==> call.payload.verification_session_id
                == verification_session_id && call.payload.verification_code@ == code@,
    {
        self.call(
            Endpoint::CompleteVerification,
            VerifyReq { verification_session_id, verification_code: String::from_str(code) },
        )
    }

    /// The gateway's word on a completed verification, or `ServerError` on a
    /// status outside the success range.
    pub fn verify(answer: Answer<VerificationResp>) -> (r: Result<VerificationResp, HashGateError>)
        ensures
            r == decoded_on_success(answer, HashGateError::ServerError),
    {
        read_on_success(answer, HashGateError::ServerError)
    }
}

} // verus!

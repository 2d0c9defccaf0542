//! What requests carry in and answers carry out.

use crate::models::UserWithShop;
use vstd::prelude::*;

verus! {

/// A login: the e-mail address as user name, the password, and a one-time
/// code where the user has one.
#[derive(Debug, Clone)]
pub struct LoginRequest {
    pub username: String,
    pub password: String,
    pub otp_code: Option<String>,
}

/// What a successful login answers.
#[derive(Debug)]
pub struct LoginResponse {
    pub user_id: i32,
    pub email: String,
    pub fname: String,
    pub lname: String,
    pub access_token: String,
    pub refresh_token: String,
    pub shops: Vec<ShopAccount>,
}

/// One shop that a user may act in.
#[derive(Debug, Clone)]
pub struct ShopAccount {
    pub shop_id: i32,
    pub shop_name: String,
    pub shop_role_id: i32,
    pub role_id: i32,
}

/// A request for new tokens.
#[derive(Debug, Clone)]
pub struct RefreshTokenRequest {
    pub refresh_token: String,
}

/// A pair of tokens.
#[derive(Debug, Clone)]
pub struct TokenResponse {
    pub access_token: String,
    pub refresh_token: String,
}

/// A registration.
#[derive(Debug, Clone)]
pub struct RegisterRequest {
    pub email: String,
    pub password: String,
    pub fname: String,
    pub lname: String,
    pub tel: String,
}

/// A change of password by the user.
#[derive(Debug, Clone)]
pub struct ChangePasswordRequest {
    pub old_password: String,
    pub new_password: String,
}

/// A request for a reset link.
#[derive(Debug, Clone)]
pub struct ForgotPasswordRequest {
    pub email: String,
}

/// A reset of the password with the token of a reset link.
#[derive(Debug, Clone)]
pub struct ResetPasswordRequest {
    pub token: String,
    pub new_password: String,
}

/// A request to enrol for one-time codes.
#[derive(Debug, Clone)]
pub struct OtpSetupRequest {
    pub user_id: i32,
}

/// A one-time code to verify.
#[derive(Debug, Clone)]
pub struct OtpVerifyRequest {
    pub user_id: i32,
    pub otp_code: String,
}

/// A customer as an answer shows it.
#[derive(Debug, Clone)]
pub struct CustomerResponse {
    pub id: i32,
    pub shop_id: i32,
    pub fname: String,
    pub lname: String,
    pub tel: String,
    pub email: Option<String>,
}

/// The filters and the page of a search for orders.
#[derive(Debug, Clone)]
pub struct OrderSearchRequest {
    pub customer_id: Option<i32>,
    pub status: Option<i8>,
    pub page: Option<i64>,
    pub limit: Option<i64>,
}

/// A user as an answer shows it.
#[derive(Debug, Clone)]
pub struct UserResponse {
    pub id: i32,
    pub email: String,
    pub fname: String,
    pub lname: String,
    pub tel: String,
    pub shop_id: i32,
    pub shop_name: String,
}

/// New names and telephone number for a user.
#[derive(Debug, Clone)]
pub struct UpdateUserRequest {
    pub fname: String,
    pub lname: String,
    pub tel: String,
}

impl UserResponse {
    /// What an answer shows of `user`: the role is left out, the rest is
    /// taken over unchanged.
    pub open spec fn shows(&self, user: UserWithShop) -> bool {
        &&& self.id == user.id
        &&& self.email@ == user.user_email@
        &&& self.fname@ == user.user_fname@
        &&& self.lname@ == user.user_lname@
        &&& self.tel@ == user.user_tel@
        &&& self.shop_id == user.shop_id
        &&& self.shop_name@ == user.shop_name@
    }

    /// The answer that shows `user`.
    pub fn of_user(user: UserWithShop) -> (response: UserResponse)
        ensures
            response.shows(user),
    {
        UserResponse {
            id: user.id,
            email: user.user_email,
            fname: user.user_fname,
            lname: user.user_lname,
            tel: user.user_tel,
            shop_id: user.shop_id,
            shop_name: user.shop_name,
        }
    }

    /// The answers that show `users`, one for each and in their order.
    pub fn of_users(users: Vec<UserWithShop>) -> (responses: Vec<UserResponse>)
        ensures
            responses.len() == users.len(),
            forall|i: int| 0 <= i < users.len() ==> (#[trigger] responses[i]).shows(users[i]),
    {
        let mut responses: Vec<UserResponse> = Vec::new();
        let mut rest = users;
        let ghost all = rest@;
        // the users are taken from the end, so that each is moved, not copied
        let mut reversed: Vec<UserResponse> = Vec::new();
        while rest.len() > 0
            invariant
                rest@ == all.take(rest.len() as int),
                reversed.len() + rest.len() == all.len(),
                forall|i: int|
                    0 <= i < reversed.len() ==> (#[trigger] reversed[i]).shows(
                        all[all.len() - 1 - i],
                    ),
            decreases rest.len(),
        {
            let user = rest.pop().unwrap();
            reversed.push(UserResponse::of_user(user));
        }
        while reversed.len() > 0
            invariant
                responses.len() + reversed.len() == all.len(),
                forall|i: int|
                    0 <= i < reversed.len() ==> (#[trigger] reversed[i]).shows(
                        all[all.len() - 1 - i],
                    ),
                forall|i: int| 0 <= i < responses.len() ==> (#[trigger] responses[i]).shows(all[i]),
            decreases reversed.len(),
        {
            let response = reversed.pop().unwrap();
            responses.push(response);
        }
        responses
    }
}

} // verus!

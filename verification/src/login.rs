//! Login: from a user name and a password to a pair of tokens.
//!
//! The identity store and the verifier of one-time codes are not part of
//! this library. A login therefore runs in steps with the caller's calls
//! between them. [`begin_login`] checks the request and says what to look
//! up. The caller asks the store. [`admit_login`] says whether a one-time
//! code is to be verified; the caller asks the verifier where it is.
//! [`finish_login_at`] takes what the store found and what the verifier
//! said and decides: a rejection, or the answer with one access token and
//! one refresh token.
//!
//! An unknown user and a wrong password are the same to this library: the
//! store found nobody, and the rejection is the same in every part.

use crate::claims::AuthUser;
use crate::claims::Identity;
use crate::clock::unix_now;
use crate::config::AuthConfig;
use crate::credentials::hash_password;
use crate::credentials::password_matches;
use crate::models::User;
use crate::structs::LoginRequest;
use crate::structs::LoginResponse;
use crate::response::ApiResponse;
use crate::structs::ShopAccount;
use crate::text::concat2;
use crate::token::access_token_of;
use crate::token::issue_access_token;
use crate::token::issue_refresh_token;
use crate::token::refresh_token_of;
use crate::token::within_reach;
use crate::token::IssueError;
use crate::token::LATEST_INSTANT;
use crate::validation::complaints_text;
use crate::validation::login_complaints;
use crate::validation::validation_text;
use vstd::prelude::*;

verus! {

/// HTTP status 200.
pub const STATUS_OK: u16 = 200;

/// HTTP status 400.
pub const STATUS_BAD_REQUEST: u16 = 400;

/// HTTP status 401.
pub const STATUS_UNAUTHORIZED: u16 = 401;

/// HTTP status 403.
pub const STATUS_FORBIDDEN: u16 = 403;

/// HTTP status 500.
pub const STATUS_INTERNAL_SERVER_ERROR: u16 = 500;

/// Why a login was rejected.
#[derive(Debug, Clone)]
pub enum LoginRejection {
    /// The request does not meet its rules; the text lists the complaints.
    Validation(String),
    /// The password could not be hashed; the text is the hasher's.
    Hashing(String),
    /// The store could not be asked: the lookup itself failed.
    LookupFailed,
    /// The store found no active user with this name and password.
    InvalidCredentials,
    /// The user was found, and the account is deactivated.
    Deactivated,
    /// The user has enrolled for one-time codes and sent none.
    OtpRequired,
    /// The user has enrolled for one-time codes, and the verifier did not
    /// confirm the code that was sent.
    OtpRejected,
    /// No token could be issued: a lifetime is not positive or too long.
    TokenGeneration,
}

/// What the identity store answered to a lookup.
#[derive(Debug, Clone)]
pub enum LookupOutcome {
    /// The store holds this active user under the name and the digest.
    Found(User),
    /// The store holds no such user.
    NotFound,
    /// The store could not be asked, or did not answer.
    Failed,
}

/// What to ask the identity store for: an active user with this e-mail
/// address and this digest.
#[derive(Debug, Clone)]
pub struct Lookup {
    pub username: String,
    pub password_hash: String,
}

/// The place of a user in a shop, from which the claims are filled in.
#[derive(Debug, Clone)]
pub struct Membership {
    pub shop_id: i32,
    pub shop_mother_id: i32,
    pub role_id: i32,
    pub shop_role_id: i32,
    pub sr_discount_type_id: i32,
    /// The discount rate, as the JSON number that will stand in the tokens.
    pub sr_discount: serde_json::Number,
    pub user_type: i32,
}

impl Membership {
    /// The place of a user for whom no shop is selected: shop 1 with role
    /// 1, no kind of discount, the rate as given, a user of kind 1.
    pub fn first_shop(sr_discount: serde_json::Number) -> (seat: Membership)
        ensures
            seat.shop_id == 1,
            seat.shop_mother_id == 1,
            seat.role_id == 1,
            seat.shop_role_id == 1,
            seat.sr_discount_type_id == 0,
            seat.sr_discount == sr_discount,
            seat.user_type == 1,
    {
        Membership {
            shop_id: 1,
            shop_mother_id: 1,
            role_id: 1,
            shop_role_id: 1,
            sr_discount_type_id: 0,
            sr_discount,
            user_type: 1,
        }
    }
}

/// What stands between a found user and the tokens.
#[derive(Debug, Clone, Copy, PartialEq, Eq, Structural)]
pub enum Admission {
    /// Nothing: the user has not enrolled for one-time codes.
    Open,
    /// The user has enrolled and sent a code. Whether the code is right is
    /// for the verifier of one-time codes to say: the caller asks it and
    /// hands the answer to [`finish_login_at`].
    OtpGiven,
}

impl LoginRejection {
    /// The HTTP status that answers the rejection.
    pub open spec fn spec_status(&self) -> u16 {
        match self {
            LoginRejection::Validation(_) => STATUS_BAD_REQUEST,
            LoginRejection::Hashing(_) => STATUS_INTERNAL_SERVER_ERROR,
            LoginRejection::LookupFailed => STATUS_INTERNAL_SERVER_ERROR,
            LoginRejection::InvalidCredentials => STATUS_UNAUTHORIZED,
            LoginRejection::Deactivated => STATUS_FORBIDDEN,
            LoginRejection::OtpRequired => STATUS_UNAUTHORIZED,
            LoginRejection::OtpRejected => STATUS_UNAUTHORIZED,
            LoginRejection::TokenGeneration => STATUS_INTERNAL_SERVER_ERROR,
        }
    }

    /// The error text that answers the rejection. A failed lookup is told
    /// without a word of what failed inside.
    pub open spec fn spec_message(&self) -> Seq<char> {
        match self {
            LoginRejection::Validation(text) => "Validation error: "@ + text@,
            LoginRejection::Hashing(text) => "Password hashing failed: "@ + text@,
            LoginRejection::LookupFailed => "Login failed: the user could not be looked up"@,
            LoginRejection::InvalidCredentials => "Invalid username or password"@,
            LoginRejection::Deactivated => "User account is deactivated"@,
            LoginRejection::OtpRequired => "OTP code required"@,
            LoginRejection::OtpRejected => "Invalid OTP code"@,
            LoginRejection::TokenGeneration =>
                "Token generation failed: token lifetime is not positive or too long"@,
        }
    }

    /// The HTTP status that answers the rejection.
    pub fn status(&self) -> (status: u16)
        ensures
            status == self.spec_status(),
    {
        match self {
            LoginRejection::Validation(_) => STATUS_BAD_REQUEST,
            LoginRejection::Hashing(_) => STATUS_INTERNAL_SERVER_ERROR,
            LoginRejection::LookupFailed => STATUS_INTERNAL_SERVER_ERROR,
            LoginRejection::InvalidCredentials => STATUS_UNAUTHORIZED,
            LoginRejection::Deactivated => STATUS_FORBIDDEN,
            LoginRejection::OtpRequired => STATUS_UNAUTHORIZED,
            LoginRejection::OtpRejected => STATUS_UNAUTHORIZED,
            LoginRejection::TokenGeneration => STATUS_INTERNAL_SERVER_ERROR,
        }
    }

    /// The error text that answers the rejection.
    pub fn message(&self) -> (message: String)
        ensures
            message@ == self.spec_message(),
    {
        match self {
            LoginRejection::Validation(text) => concat2("Validation error: ", text.as_str()),
            LoginRejection::Hashing(text) => concat2("Password hashing failed: ", text.as_str()),
            LoginRejection::LookupFailed => String::from_str(
                "Login failed: the user could not be looked up",
            ),
            LoginRejection::InvalidCredentials => String::from_str("Invalid username or password"),
            LoginRejection::Deactivated => String::from_str("User account is deactivated"),
            LoginRejection::OtpRequired => String::from_str("OTP code required"),
            LoginRejection::OtpRejected => String::from_str("Invalid OTP code"),
            LoginRejection::TokenGeneration => String::from_str(
                "Token generation failed: token lifetime is not positive or too long",
            ),
        }
    }
}

/// The first step of a login: checks the request and hashes the password.
///
/// A request with complaints is rejected with their text, and nothing is
/// hashed. Otherwise the answer is what to look up, the user name as given
/// and a digest against which the password verifies, unless the hasher
/// itself fails.
pub fn begin_login(payload: &LoginRequest) -> (begun: Result<Lookup, LoginRejection>)
    ensures
        login_complaints(payload.username@, payload.password@).len() > 0 ==> (begun matches Err(
            LoginRejection::Validation(text),
        ) && text@ == complaints_text(login_complaints(payload.username@, payload.password@))),
        login_complaints(payload.username@, payload.password@).len() == 0 ==> match begun {
            Ok(lookup) => lookup.username@ == payload.username@ && password_matches(
                payload.password@,
                lookup.password_hash@,
            ),
            Err(rejection) => rejection is Hashing,
        },
{
    let errors = payload.validate();
    if errors.len() > 0 {
        return Err(LoginRejection::Validation(validation_text(&errors)));
    }
    match hash_password(payload.password.as_str()) {
        Ok(digest) => Ok(Lookup { username: payload.username.clone(), password_hash: digest }),
        Err(error) => Err(LoginRejection::Hashing(error.message)),
    }
}

/// Whether a login may go on, by what the store answered.
///
/// A lookup that failed is an error of the server, not of the user. Nobody
/// found: the credentials are invalid, whether the name is unknown or the
/// password wrong. A deactivated account is refused as such; this tells
/// nothing of other names, since it is said only after name and password
/// matched. A user who has enrolled for one-time codes must send one.
pub open spec fn admission_of(found: LookupOutcome, otp_code_given: bool) -> Result<
    Admission,
    LoginRejection,
> {
    match found {
        LookupOutcome::Failed => Err(LoginRejection::LookupFailed),
        LookupOutcome::NotFound => Err(LoginRejection::InvalidCredentials),
        LookupOutcome::Found(user) => if !user.spec_is_active() {
            Err(LoginRejection::Deactivated)
        } else if !user.spec_has_otp() {
            Ok(Admission::Open)
        } else if otp_code_given {
            Ok(Admission::OtpGiven)
        } else {
            Err(LoginRejection::OtpRequired)
        },
    }
}

/// Decides whether a login may go on, and whether the verifier of one-time
/// codes is to be asked first: it is, exactly where the answer is
/// `OtpGiven`.
pub fn admit_login(found: &LookupOutcome, otp_code: &Option<String>) -> (admitted: Result<
    Admission,
    LoginRejection,
>)
    ensures
        admitted == admission_of(*found, otp_code is Some),
{
    match found {
        LookupOutcome::Failed => Err(LoginRejection::LookupFailed),
        LookupOutcome::NotFound => Err(LoginRejection::InvalidCredentials),
        LookupOutcome::Found(user) => {
            if !user.is_active() {
                Err(LoginRejection::Deactivated)
            } else if !user.has_otp() {
                Ok(Admission::Open)
            } else if otp_code.is_some() {
                Ok(Admission::OtpGiven)
            } else {
                Err(LoginRejection::OtpRequired)
            }
        },
    }
}

/// Whether an admitted login may go on to the tokens, by what the verifier
/// of one-time codes said. `None` stands for a verifier that was not asked.
///
/// Where no code is due, the verifier's word is of no account. Where one is
/// due, the login goes on only where the verifier said that the code is
/// right: a wrong code and a code that nobody verified are rejected alike.
pub open spec fn confirmation_of(admitted: Admission, otp_verdict: Option<bool>) -> Result<
    (),
    LoginRejection,
> {
    match admitted {
        Admission::Open => Ok(()),
        Admission::OtpGiven => if otp_verdict == Some(true) {
            Ok(())
        } else {
            Err(LoginRejection::OtpRejected)
        },
    }
}

/// Decides whether an admitted login may go on to the tokens.
pub fn confirm_otp(admitted: Admission, otp_verdict: Option<bool>) -> (confirmed: Result<
    (),
    LoginRejection,
>)
    ensures
        confirmed == confirmation_of(admitted, otp_verdict),
{
    match admitted {
        Admission::Open => Ok(()),
        Admission::OtpGiven => match otp_verdict {
            Some(true) => Ok(()),
            _ => Err(LoginRejection::OtpRejected),
        },
    }
}

/// What a login comes to before any token is asked for: the rejection, if
/// there is one.
pub open spec fn rejection_before_tokens(
    found: LookupOutcome,
    otp_code_given: bool,
    otp_verdict: Option<bool>,
) -> Option<LoginRejection> {
    match admission_of(found, otp_code_given) {
        Err(rejection) => Some(rejection),
        Ok(admitted) => match confirmation_of(admitted, otp_verdict) {
            Err(rejection) => Some(rejection),
            Ok(_) => None,
        },
    }
}

/// The identity that the tokens of a login state: the user's own number,
/// e-mail address and password version, and the user's place in the shop.
pub open spec fn login_identity(user: User, seat: Membership) -> Identity {
    Identity {
        user_id: user.id as int,
        shop_id: seat.shop_id as int,
        shop_mother_id: seat.shop_mother_id as int,
        role_id: seat.role_id as int,
        shop_role_id: seat.shop_role_id as int,
        user_email: user.user_email@,
        sr_discount_type_id: seat.sr_discount_type_id as int,
        sr_discount: seat.sr_discount,
        password_version: user.password_version as int,
    }
}

/// The access token of a login at `now`, where one can be issued.
pub open spec fn login_access_token(user: User, seat: Membership, config: AuthConfig, now: int) -> Option<
    Seq<char>,
> {
    access_token_of(
        login_identity(user, seat),
        config@.access_secret,
        config@.access_ttl_minutes,
        now,
    )
}

/// The refresh token of a login at `now`, where one can be issued.
pub open spec fn login_refresh_token(user: User, seat: Membership, config: AuthConfig, now: int) -> Option<
    Seq<char>,
> {
    refresh_token_of(
        login_identity(user, seat),
        seat.user_type as int,
        config@.refresh_secret,
        config@.refresh_ttl_hours,
        now,
    )
}

/// Whether `response` is the answer to the login of `user` with these two
/// tokens and these shops.
pub open spec fn answers_login(
    response: LoginResponse,
    user: User,
    access_token: Seq<char>,
    refresh_token: Seq<char>,
    shops: Vec<ShopAccount>,
) -> bool {
    &&& response.user_id == user.id
    &&& response.email@ == user.user_email@
    &&& response.fname@ == user.user_fname@
    &&& response.lname@ == user.user_lname@
    &&& response.access_token@ == access_token
    &&& response.refresh_token@ == refresh_token
    &&& response.shops == shops
}

/// The text that says why no token was issued.
pub fn issue_error_text(error: IssueError) -> (text: &'static str)
    ensures
        text@ == "token lifetime is not positive or too long"@,
{
    match error {
        IssueError::Lifetime => "token lifetime is not positive or too long",
    }
}

/// Issues the two tokens of `user` and makes the answer.
///
/// The answer carries the user's number, e-mail address and names, the two
/// tokens and the shops as given. It is there exactly where both tokens can
/// be issued: where both lifetimes are positive and end within an `i64`.
pub fn complete_login_at(
    user: User,
    seat: &Membership,
    shops: Vec<ShopAccount>,
    config: &AuthConfig,
    now: i64,
) -> (done: Result<LoginResponse, LoginRejection>)
    ensures
        match (
            login_access_token(user, *seat, *config, now as int),
            login_refresh_token(user, *seat, *config, now as int),
        ) {
            (Some(access_token), Some(refresh_token)) => done is Ok && answers_login(
                done->Ok_0,
                user,
                access_token,
                refresh_token,
                shops,
            ) && access_token.len() > 0 && refresh_token.len() > 0,
            _ => done == Err::<LoginResponse, LoginRejection>(LoginRejection::TokenGeneration),
        },
{
    let who = AuthUser {
        user_id: user.id,
        shop_id: seat.shop_id,
        shop_mother_id: seat.shop_mother_id,
        role_id: seat.role_id,
        shop_role_id: seat.shop_role_id,
        user_email: user.user_email.clone(),
        sr_discount_type_id: seat.sr_discount_type_id,
        sr_discount: seat.sr_discount.clone(),
        password_version: user.password_version,
    };
    let access_token = match issue_access_token(
        &who,
        config.access_secret(),
        config.access_ttl_minutes(),
        now,
    ) {
        Ok(token) => token,
        Err(_) => {
            return Err(LoginRejection::TokenGeneration);
        },
    };
    let refresh_token = match issue_refresh_token(
        &who,
        seat.user_type,
        config.refresh_secret(),
        config.refresh_ttl_hours(),
        now,
    ) {
        Ok(token) => token,
        Err(_) => {
            return Err(LoginRejection::TokenGeneration);
        },
    };
    Ok(
        LoginResponse {
            user_id: user.id,
            email: user.user_email,
            fname: user.user_fname,
            lname: user.user_lname,
            access_token,
            refresh_token,
            shops,
        },
    )
}

/// What the second step of a login comes to at the instant `now`: the two
/// tokens, access token first, or the rejection.
///
/// No token is issued to a user whom the store did not find, whose account
/// is deactivated, or who has enrolled for one-time codes and whose code the
/// verifier did not confirm.
pub open spec fn login_outcome(
    found: LookupOutcome,
    otp_code_given: bool,
    otp_verdict: Option<bool>,
    seat: Membership,
    config: AuthConfig,
    now: int,
) -> Result<(Seq<char>, Seq<char>), LoginRejection> {
    match rejection_before_tokens(found, otp_code_given, otp_verdict) {
        Some(rejection) => Err(rejection),
        None => match (
            login_access_token(found->Found_0, seat, config, now),
            login_refresh_token(found->Found_0, seat, config, now),
        ) {
            (Some(access_token), Some(refresh_token)) => Ok((access_token, refresh_token)),
            _ => Err(LoginRejection::TokenGeneration),
        },
    }
}

/// Whether both lifetimes of a configuration are positive and end within
/// reach from every instant that the clock gives.
pub open spec fn lifetimes_within_reach(config: AuthConfig) -> bool {
    within_reach(config@.access_ttl_minutes, 60) && within_reach(config@.refresh_ttl_hours, 3600)
}

/// The second step of a login, at the instant `now`: decides on what the
/// store answered and on what the verifier of one-time codes said.
///
/// `otp_verdict` is the verifier's answer to the code of the request, or
/// `None` where the verifier was not asked. The outcome is exactly
/// [`login_outcome`]: every rejection with the inputs on which it comes, and
/// else the answer with the two tokens that [`login_access_token`] and
/// [`login_refresh_token`] name.
pub fn finish_login_at(
    found: LookupOutcome,
    otp_code: &Option<String>,
    otp_verdict: Option<bool>,
    seat: &Membership,
    shops: Vec<ShopAccount>,
    config: &AuthConfig,
    now: i64,
) -> (done: Result<LoginResponse, LoginRejection>)
    ensures
        match login_outcome(found, otp_code is Some, otp_verdict, *seat, *config, now as int) {
            Ok((access_token, refresh_token)) => done is Ok && answers_login(
                done->Ok_0,
                found->Found_0,
                access_token,
                refresh_token,
                shops,
            ) && access_token.len() > 0 && refresh_token.len() > 0,
            Err(rejection) => done == Err::<LoginResponse, LoginRejection>(rejection),
        },
{
    let admitted = match admit_login(&found, otp_code) {
        Ok(admitted) => admitted,
        Err(rejection) => {
            return Err(rejection);
        },
    };
    match confirm_otp(admitted, otp_verdict) {
        Ok(_) => {},
        Err(rejection) => {
            return Err(rejection);
        },
    }
    match found {
        LookupOutcome::Found(user) => complete_login_at(user, seat, shops, config, now),
        _ => vstd::pervasive::unreached(),
    }
}

/// The second step of a login, at the instant of the call.
///
/// What is rejected before any token does not depend on the instant. Past
/// that, the outcome is that of [`finish_login_at`] at some instant: the one
/// that the clock gave. With lifetimes within reach the login is answered,
/// and every answer carries two tokens that are not empty.
pub fn finish_login(
    found: LookupOutcome,
    otp_code: &Option<String>,
    otp_verdict: Option<bool>,
    seat: &Membership,
    shops: Vec<ShopAccount>,
    config: &AuthConfig,
) -> (done: Result<LoginResponse, LoginRejection>)
    ensures
        rejection_before_tokens(found, otp_code is Some, otp_verdict) matches Some(rejection)
            ==> done == Err::<LoginResponse, LoginRejection>(rejection),
        rejection_before_tokens(found, otp_code is Some, otp_verdict) is None
            && lifetimes_within_reach(*config) ==> done is Ok,
        done is Ok ==> done->Ok_0.access_token@.len() > 0 && done->Ok_0.refresh_token@.len() > 0,
        exists|now: i64|
            0 <= now <= LATEST_INSTANT && match #[trigger] login_outcome(
                found,
                otp_code is Some,
                otp_verdict,
                *seat,
                *config,
                now as int,
            ) {
                Ok((access_token, refresh_token)) => done is Ok && answers_login(
                    done->Ok_0,
                    found->Found_0,
                    access_token,
                    refresh_token,
                    shops,
                ),
                Err(rejection) => done == Err::<LoginResponse, LoginRejection>(rejection),
            },
{
    let now = unix_now();
    let done = finish_login_at(found, otp_code, otp_verdict, seat, shops, config, now);
    proof {
        let _ = login_outcome(found, otp_code is Some, otp_verdict, *seat, *config, now as int);
    }
    done
}

/// The answer to a logout. Nothing is kept on the server for a token, so
/// there is nothing to end: the client drops its tokens.
pub fn logout() -> (response: ApiResponse<()>)
    ensures
        response.status,
        response.data == Some(()),
        response.message is Some && response.message->0@ == "Logged out successfully"@,
        response.error is None,
{
    ApiResponse::success_with_message((), String::from_str("Logged out successfully"))
}

/// The answer to a request that asks whether its token is valid, given
/// behind the access-token guard: a request that comes this far has a valid
/// token.
pub fn verify_token() -> (response: ApiResponse<()>)
    ensures
        response.status,
        response.data == Some(()),
        response.message is Some && response.message->0@ == "Token is valid"@,
        response.error is None,
{
    ApiResponse::success_with_message((), String::from_str("Token is valid"))
}

} // verus!

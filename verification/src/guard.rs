//! The guards in front of protected routes.
//!
//! A guard takes what the request carries in one header and either admits
//! the request, with the identity to attach to it, or rejects it. It reads
//! nothing else and changes nothing: the caller fetches the header, attaches
//! the identity and forwards the request. Every rejection is answered with
//! status 401.

use crate::claims::AuthUser;
use crate::claims::RefreshTokenClaims;
use crate::clock::unix_now;
use crate::text::same_text;
use crate::text::strip_prefix;
use crate::text::without_prefix;
use crate::token::access_verdict;
use crate::token::refresh_verdict;
use crate::token::verify_access_token;
use crate::token::verify_refresh_token;
use crate::token::TokenError;
use crate::token::LATEST_INSTANT;
use vstd::prelude::*;

verus! {

/// Why a guard rejected a request.
#[derive(Debug, Clone, Copy, PartialEq, Eq, Structural)]
pub enum Rejection {
    /// There is no `Authorization` header, or it is not `Bearer ` followed by
    /// a token.
    MissingOrMalformedHeader,
    /// The token did not verify; the reason is kept for the log.
    InvalidOrExpiredToken(TokenError),
    /// The token was issued before the password was last changed.
    PasswordChanged,
    /// There is no `X-API-Key` header.
    MissingApiKey,
    /// The `X-API-Key` header is not the configured key.
    InvalidApiKey,
}

/// The four guards.
#[derive(Debug, Clone, Copy, PartialEq, Eq, Structural)]
pub enum Guard {
    /// Protected user and order routes: an access token.
    AccessToken,
    /// The token-renewal route: a refresh token.
    RefreshToken,
    /// Machine-to-machine routes: the public API key.
    PublicKey,
    /// Telemedicine routes: the telemedicine API key.
    TelePublicKey,
}

/// The HTTP status that answers any rejection.
pub const UNAUTHORIZED: u16 = 401;

/// The characters of a header value, where the header is there.
pub open spec fn header_text(header: Option<&str>) -> Option<Seq<char>> {
    match header {
        Some(value) => Some(value@),
        None => None,
    }
}

/// The token that an `Authorization` header carries: what follows the exact
/// prefix `Bearer `. A header with another scheme, another case or no space
/// carries none.
pub open spec fn bearer_token(header: Option<Seq<char>>) -> Option<Seq<char>> {
    match header {
        Some(value) => without_prefix(value, "Bearer "@),
        None => None,
    }
}

/// The token that an `Authorization` header carries.
pub fn extract_bearer<'a>(authorization: Option<&'a str>) -> (token: Option<&'a str>)
    ensures
        match token {
            Some(text) => bearer_token(header_text(authorization)) == Some(text@),
            None => bearer_token(header_text(authorization)) is None,
        },
{
    match authorization {
        Some(value) => strip_prefix(value, "Bearer "),
        None => None,
    }
}

/// What the access-token guard decides at the instant `now`.
pub open spec fn access_decision(header: Option<Seq<char>>, secret: Seq<char>, now: int) -> Result<
    crate::claims::Identity,
    Rejection,
> {
    match bearer_token(header) {
        None => Err(Rejection::MissingOrMalformedHeader),
        Some(token) => match access_verdict(token, secret, now) {
            Ok(claims) => Ok(claims.identity),
            Err(error) => Err(Rejection::InvalidOrExpiredToken(error)),
        },
    }
}

/// What the refresh-token guard decides at the instant `now`.
pub open spec fn refresh_decision(header: Option<Seq<char>>, secret: Seq<char>, now: int) -> Result<
    crate::claims::RefreshClaims,
    Rejection,
> {
    match bearer_token(header) {
        None => Err(Rejection::MissingOrMalformedHeader),
        Some(token) => match refresh_verdict(token, secret, now) {
            Ok(claims) => Ok(claims),
            Err(error) => Err(Rejection::InvalidOrExpiredToken(error)),
        },
    }
}

/// What an API-key guard decides: the header must be there and be the
/// configured key, character for character.
pub open spec fn key_decision(header: Option<Seq<char>>, expected: Seq<char>) -> Result<
    (),
    Rejection,
> {
    match header {
        None => Err(Rejection::MissingApiKey),
        Some(value) => if value == expected {
            Ok(())
        } else {
            Err(Rejection::InvalidApiKey)
        },
    }
}

/// The access-token guard at the instant `now`.
///
/// The request is admitted exactly where the header carries a bearer token
/// that verifies under `secret` and is not expired at `now`. The identity
/// handed back is the one that the token's claims state, field for field.
pub fn authorize_access(authorization: Option<&str>, secret: &str, now: i64) -> (decided: Result<
    AuthUser,
    Rejection,
>)
    ensures
        match access_decision(header_text(authorization), secret@, now as int) {
            Ok(who) => decided is Ok && decided->Ok_0@ == who,
            Err(rejection) => decided == Err::<AuthUser, Rejection>(rejection),
        },
{
    let token = match extract_bearer(authorization) {
        Some(text) => text,
        None => {
            return Err(Rejection::MissingOrMalformedHeader);
        },
    };
    match verify_access_token(token, secret, now) {
        Ok(claims) => Ok(claims.into_auth_user()),
        Err(error) => Err(Rejection::InvalidOrExpiredToken(error)),
    }
}

/// The refresh-token guard at the instant `now`.
///
/// As [`authorize_access`], under the refresh secret; what is attached to
/// the request is the whole claim set.
pub fn authorize_refresh(authorization: Option<&str>, secret: &str, now: i64) -> (decided: Result<
    RefreshTokenClaims,
    Rejection,
>)
    ensures
        match refresh_decision(header_text(authorization), secret@, now as int) {
            Ok(claims) => decided is Ok && decided->Ok_0@ == claims,
            Err(rejection) => decided == Err::<RefreshTokenClaims, Rejection>(rejection),
        },
{
    let token = match extract_bearer(authorization) {
        Some(text) => text,
        None => {
            return Err(Rejection::MissingOrMalformedHeader);
        },
    };
    match verify_refresh_token(token, secret, now) {
        Ok(claims) => Ok(claims),
        Err(error) => Err(Rejection::InvalidOrExpiredToken(error)),
    }
}

/// Checks the password version of an admitted identity against the one
/// that the identity store holds now.
///
/// The guards do not ask the store: a token stays good until it runs out,
/// also after the password was changed. A caller that has read the user's
/// record can close that window with this check: the identity passes
/// exactly where its version is the stored one.
pub fn recheck_password_version(who: &AuthUser, stored_version: i32) -> (checked: Result<
    (),
    Rejection,
>)
    ensures
        checked == if who.password_version == stored_version {
            Ok::<(), Rejection>(())
        } else {
            Err::<(), Rejection>(Rejection::PasswordChanged)
        },
{
    if who.password_version == stored_version {
        Ok(())
    } else {
        Err(Rejection::PasswordChanged)
    }
}

/// The access-token guard, at the instant of the call.
///
/// The decision is [`access_decision`] at some instant: the one that the
/// clock gave.
pub fn check_access_token(authorization: Option<&str>, secret: &str) -> (decided: Result<
    AuthUser,
    Rejection,
>)
    ensures
        exists|now: i64|
            0 <= now <= LATEST_INSTANT && match #[trigger] access_decision(header_text(authorization), secret@, now as int) {
                Ok(who) => decided is Ok && decided->Ok_0@ == who,
                Err(rejection) => decided == Err::<AuthUser, Rejection>(rejection),
            },
        bearer_token(header_text(authorization)) is None ==> decided == Err::<AuthUser, Rejection>(
            Rejection::MissingOrMalformedHeader,
        ),
{
    let now = unix_now();
    let decided = authorize_access(authorization, secret, now);
    proof {
        let _ = access_decision(header_text(authorization), secret@, now as int);
    }
    decided
}

/// The refresh-token guard, at the instant of the call.
///
/// The decision is [`refresh_decision`] at some instant: the one that the
/// clock gave.
pub fn check_refresh_token(authorization: Option<&str>, secret: &str) -> (decided: Result<
    RefreshTokenClaims,
    Rejection,
>)
    ensures
        exists|now: i64|
            0 <= now <= LATEST_INSTANT && match #[trigger] refresh_decision(header_text(authorization), secret@, now as int) {
                Ok(claims) => decided is Ok && decided->Ok_0@ == claims,
                Err(rejection) => decided == Err::<RefreshTokenClaims, Rejection>(rejection),
            },
        bearer_token(header_text(authorization)) is None ==> decided == Err::<
            RefreshTokenClaims,
            Rejection,
        >(Rejection::MissingOrMalformedHeader),
{
    let now = unix_now();
    let decided = authorize_refresh(authorization, secret, now);
    proof {
        let _ = refresh_decision(header_text(authorization), secret@, now as int);
    }
    decided
}

/// The public-API-key guard: admits exactly the configured key.
pub fn check_public_key(api_key: Option<&str>, expected_key: &str) -> (decided: Result<
    (),
    Rejection,
>)
    ensures
        decided == key_decision(header_text(api_key), expected_key@),
{
    match api_key {
        None => Err(Rejection::MissingApiKey),
        Some(value) => {
            if same_text(value, expected_key) {
                Ok(())
            } else {
                Err(Rejection::InvalidApiKey)
            }
        },
    }
}

/// The telemedicine-API-key guard: admits exactly the configured key.
pub fn check_tele_public_key(api_key: Option<&str>, expected_key: &str) -> (decided: Result<
    (),
    Rejection,
>)
    ensures
        decided == key_decision(header_text(api_key), expected_key@),
{
    check_public_key(api_key, expected_key)
}

/// The message that answers a rejection by `guard`.
///
/// The client is told that a token was invalid or expired in one breath, and
/// of an expired one also that it expired; what exactly failed inside a
/// malformed token is not told.
pub fn rejection_message(guard: Guard, rejection: Rejection) -> (message: &'static str)
    ensures
        message@ == rejection_text(guard, rejection),
{
    match rejection {
        Rejection::MissingOrMalformedHeader => "Missing or invalid Authorization header",
        Rejection::InvalidOrExpiredToken(TokenError::Expired) => match guard {
            Guard::RefreshToken => "Refresh token expired",
            _ => "Token expired",
        },
        Rejection::InvalidOrExpiredToken(TokenError::Malformed) => match guard {
            Guard::RefreshToken => "Invalid or expired refresh token",
            _ => "Invalid or expired token",
        },
        Rejection::PasswordChanged => match guard {
            Guard::RefreshToken => "Invalid or expired refresh token",
            _ => "Invalid or expired token",
        },
        Rejection::MissingApiKey => match guard {
            Guard::TelePublicKey => "Missing telemedicine API key",
            _ => "Missing API key",
        },
        Rejection::InvalidApiKey => match guard {
            Guard::TelePublicKey => "Invalid telemedicine API key",
            _ => "Invalid API key",
        },
    }
}

/// The text of the message that answers a rejection by `guard`.
pub open spec fn rejection_text(guard: Guard, rejection: Rejection) -> Seq<char> {
    match rejection {
        Rejection::MissingOrMalformedHeader => "Missing or invalid Authorization header"@,
        Rejection::InvalidOrExpiredToken(TokenError::Expired) => if guard == Guard::RefreshToken {
            "Refresh token expired"@
        } else {
            "Token expired"@
        },
        Rejection::InvalidOrExpiredToken(TokenError::Malformed) => if guard
            == Guard::RefreshToken {
            "Invalid or expired refresh token"@
        } else {
            "Invalid or expired token"@
        },
        Rejection::PasswordChanged => if guard == Guard::RefreshToken {
            "Invalid or expired refresh token"@
        } else {
            "Invalid or expired token"@
        },
        Rejection::MissingApiKey => if guard == Guard::TelePublicKey {
            "Missing telemedicine API key"@
        } else {
            "Missing API key"@
        },
        Rejection::InvalidApiKey => if guard == Guard::TelePublicKey {
            "Invalid telemedicine API key"@
        } else {
            "Invalid API key"@
        },
    }
}

/// The HTTP status that answers a rejection: always 401.
pub fn rejection_status(rejection: Rejection) -> (status: u16)
    ensures
        status == UNAUTHORIZED,
{
    UNAUTHORIZED
}

} // verus!

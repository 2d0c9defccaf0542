//! Signed, expiring tokens: issuing them and verifying them.
//!
//! A token is the compact three-part form of a JSON payload, signed with
//! HMAC-SHA256 under a shared secret. Access tokens and refresh tokens are
//! signed under different secrets. Signing and signature checking are
//! `jsonwebtoken`'s; what the payload holds, when a token runs out and how a
//! failure is named are decided here.

use crate::claims::access_claims;
use crate::claims::access_claims_of;
use crate::claims::access_entries;
use crate::claims::only_scalars;
use crate::claims::refresh_claims;
use crate::claims::refresh_claims_of;
use crate::claims::refresh_entries;
use crate::claims::AccessClaims;
use crate::claims::AccessTokenClaims;
use crate::claims::AuthUser;
use crate::claims::Identity;
use crate::claims::RefreshClaims;
use crate::claims::RefreshTokenClaims;
use crate::clock::unix_now;
use crate::json::json_entries;
use crate::json::JsonItem;
use crate::json::JsonObject;
use vstd::prelude::*;

verus! {

/// `jsonwebtoken::errors::Error`: handed on to be turned into its message.
#[verifier::external_type_specification]
#[verifier::external_body]
pub struct ExJwtError(jsonwebtoken::errors::Error);

/// Minutes that an access token lives where nothing else is configured.
pub const DEFAULT_ACCESS_TTL_MINUTES: i64 = 90;

/// Hours that a refresh token lives where nothing else is configured.
pub const DEFAULT_REFRESH_TTL_HOURS: i64 = 720;

/// Why a token was not accepted.
#[derive(Debug, Clone, Copy, PartialEq, Eq, Structural)]
pub enum TokenError {
    /// The text is no token, its signature does not hold under the secret, or
    /// its payload does not state the claims.
    Malformed,
    /// The signature holds and the claims are stated, but the expiry is past.
    Expired,
}

/// Why no token was issued.
#[derive(Debug, Clone, Copy, PartialEq, Eq, Structural)]
pub enum IssueError {
    /// The lifetime is not positive, or the expiry would lie beyond what an
    /// `i64` of seconds holds.
    Lifetime,
}

/// The latest instant that the clock gives, in seconds since the Unix
/// epoch: the last second of the year 262142, the last that `chrono` holds.
pub const LATEST_INSTANT: i64 = 8210266876799;

/// The token that `jsonwebtoken::encode` makes of a payload of numbers,
/// texts and booleans under a secret, with the default header.
pub uninterp spec fn jwt_encoding(entries: Map<Seq<char>, JsonItem>, secret: Seq<char>) -> Seq<char>;

/// The payload that `jsonwebtoken::decode` reads from a token under a secret,
/// with HMAC-SHA256 as the only algorithm and no check of the time; `None`
/// where it reports an error.
pub uninterp spec fn jwt_payload(token: Seq<char>, secret: Seq<char>) -> Option<
    Map<Seq<char>, JsonItem>,
>;

/// The signature segment that `jsonwebtoken` computes for the first two
/// segments of a token under a secret: `crypto::sign` with HMAC-SHA256, in
/// base64 without padding.
pub uninterp spec fn jwt_signature(message: Seq<char>, secret: Seq<char>) -> Seq<char>;

/// The part of a token in front of its last dot: the header and payload
/// segments with the dot between them, which is what the signature covers.
pub open spec fn signed_part(token: Seq<char>) -> Seq<char> {
    match token.index_of_last('.') {
        Some(dot) => token.take(dot),
        None => token,
    }
}

/// The part of a token behind its last dot: the signature segment.
pub open spec fn signature_part(token: Seq<char>) -> Seq<char> {
    match token.index_of_last('.') {
        Some(dot) => token.skip(dot + 1),
        None => Seq::empty(),
    }
}

/// Whether the signature segment of a token is the signature of what
/// stands in front of it.
pub open spec fn well_signed(token: Seq<char>, secret: Seq<char>) -> bool {
    token.contains('.') && signature_part(token) == jwt_signature(signed_part(token), secret)
}

/// `jsonwebtoken::encode` with the default header (HMAC-SHA256) and the
/// secret's bytes as key.
///
/// Signing succeeds: the key is of the header's family, a map of numbers,
/// texts and booleans is always written as JSON, and the HMAC arm of the
/// signer returns no error. The token is a function of payload and secret.
/// Three more things are taken from the crate's source. A payload without
/// an `aud` entry is read back from its token under the same secret: the
/// signature is recomputed and compared, and the JSON text gives back the
/// numbers and strings it was written from. Under another secret the token
/// is refused unless that secret signs the payload to the very same token,
/// since header and payload segments do not depend on the key. The segments
/// are joined by dots, and the last one holds no dot and is the signature
/// of the two before it.
#[verifier::external_body]
pub(crate) fn sign_claims(object: &JsonObject, secret: &str) -> (signed: Result<
    String,
    jsonwebtoken::errors::Error,
>)
    requires
        only_scalars(json_entries(*object)),
    ensures
        signed is Ok,
        signed->Ok_0@ == jwt_encoding(json_entries(*object), secret@),
        !json_entries(*object).dom().contains("aud"@) ==> jwt_payload(signed->Ok_0@, secret@)
            == Some(json_entries(*object)),
        forall|other: Seq<char>|
            jwt_encoding(json_entries(*object), other) != signed->Ok_0@ ==> (
            #[trigger] jwt_payload(signed->Ok_0@, other)) is None,
        signed->Ok_0@.contains('.') && signature_part(signed->Ok_0@) == jwt_signature(
            signed_part(signed->Ok_0@),
            secret@,
        ),
{
    let key = jsonwebtoken::EncodingKey::from_secret(secret.as_bytes());
    jsonwebtoken::encode(&jsonwebtoken::Header::default(), object, &key)
}

/// `jsonwebtoken::decode` into a JSON object, with the secret's bytes as key
/// and HMAC-SHA256 as the only algorithm. The crate's own check of `exp`
/// against its clock is switched off and no claim is required, so that the
/// outcome is a function of token and secret; expiry is judged by the caller.
/// A token is opened only if the text behind its last dot is the signature
/// of the text in front of it: the crate cuts the token there, signs the
/// front again and compares.
#[verifier::external_body]
pub(crate) fn open_claims(token: &str, secret: &str) -> (opened: Result<
    JsonObject,
    jsonwebtoken::errors::Error,
>)
    ensures
        match opened {
            Ok(object) => jwt_payload(token@, secret@) == Some(json_entries(object)),
            Err(_) => jwt_payload(token@, secret@) is None,
        },
        opened is Ok ==> token@.contains('.') && signature_part(token@) == jwt_signature(
            signed_part(token@),
            secret@,
        ),
{
    let mut rules = jsonwebtoken::Validation::new(jsonwebtoken::Algorithm::HS256);
    rules.validate_exp = false;
    rules.required_spec_claims.clear();
    let key = jsonwebtoken::DecodingKey::from_secret(secret.as_bytes());
    jsonwebtoken::decode::<JsonObject>(token, &key, &rules).map(|data| data.claims)
}

/// A token changed in one place in front of its last dot.
///
/// The change leaves the signature segment as it was and makes another
/// text of what the signature covers. So the changed token is well signed
/// only where the changed text has, under the secret, the very signature of
/// the text before the change; in every other case it is not, and no
/// verification accepts it.
pub proof fn lemma_changed_token(token: Seq<char>, at: int, put: char, secret: Seq<char>)
    requires
        well_signed(token, secret),
        0 <= at < token.index_of_last('.')->0,
        put != token[at],
    ensures
        signature_part(token.update(at, put)) == signature_part(token),
        signed_part(token.update(at, put)) != signed_part(token),
        well_signed(token.update(at, put), secret) <==> jwt_signature(
            signed_part(token.update(at, put)),
            secret,
        ) == jwt_signature(signed_part(token), secret),
{
    let changed = token.update(at, put);
    token.index_of_last_ensures('.');
    changed.index_of_last_ensures('.');
    let dot = token.index_of_last('.')->0;
    assert(changed[dot] == '.');
    assert(changed.contains('.'));
    let found = changed.index_of_last('.')->0;
    if found > dot {
        assert(token[found] == changed[found]);
    }
    assert(found == dot);
    assert(changed.skip(dot + 1) =~= token.skip(dot + 1));
    assert(changed.take(dot)[at] != token.take(dot)[at]);
}

/// The instant at which a token issued at `now` runs out, for a lifetime
/// given in seconds: `None` where the lifetime is not positive or the
/// instant is beyond an `i64`.
pub open spec fn expiry(now: int, lifetime_seconds: int) -> Option<int> {
    if lifetime_seconds > 0 && now + lifetime_seconds <= i64::MAX {
        Some(now + lifetime_seconds)
    } else {
        None
    }
}

/// What verifying an access token at the instant `now` gives.
///
/// A token that does not open under the secret, or whose payload does not
/// state access claims, is malformed. One that states them is expired if its
/// expiry lies before `now`, and is accepted with exactly the stated claims
/// otherwise.
pub open spec fn access_verdict(token: Seq<char>, secret: Seq<char>, now: int) -> Result<
    AccessClaims,
    TokenError,
> {
    match jwt_payload(token, secret) {
        None => Err(TokenError::Malformed),
        Some(entries) => match access_claims_of(entries) {
            None => Err(TokenError::Malformed),
            Some(claims) => if claims.exp < now {
                Err(TokenError::Expired)
            } else {
                Ok(claims)
            },
        },
    }
}

/// What verifying a refresh token at the instant `now` gives; as
/// [`access_verdict`], for refresh claims.
pub open spec fn refresh_verdict(token: Seq<char>, secret: Seq<char>, now: int) -> Result<
    RefreshClaims,
    TokenError,
> {
    match jwt_payload(token, secret) {
        None => Err(TokenError::Malformed),
        Some(entries) => match refresh_claims_of(entries) {
            None => Err(TokenError::Malformed),
            Some(claims) => if claims.exp < now {
                Err(TokenError::Expired)
            } else {
                Ok(claims)
            },
        },
    }
}

/// The access token that is issued for `user` at `now` to live `ttl_minutes`
/// minutes: its claims are the identity, `iat = now` and
/// `exp = now + 60 * ttl_minutes`. There is none where there is no expiry:
/// the lifetime is not positive or runs beyond what an `i64` holds.
pub open spec fn access_token_of(user: Identity, secret: Seq<char>, ttl_minutes: int, now: int) -> Option<
    Seq<char>,
> {
    match expiry(now, ttl_minutes * 60) {
        Some(exp) => Some(jwt_encoding(access_entries(access_claims(user, exp, now)), secret)),
        None => None,
    }
}

/// The refresh token that is issued for `user` of kind `user_type` at `now`
/// to live `ttl_hours` hours: its claims are the identity, the kind,
/// `iat = now` and `exp = now + 3600 * ttl_hours`.
pub open spec fn refresh_token_of(
    user: Identity,
    user_type: int,
    secret: Seq<char>,
    ttl_hours: int,
    now: int,
) -> Option<Seq<char>> {
    match expiry(now, ttl_hours * 3600) {
        Some(exp) => Some(
            jwt_encoding(refresh_entries(refresh_claims(user, user_type, exp, now)), secret),
        ),
        None => None,
    }
}

/// Whether a lifetime of `lifetime` units of `unit_seconds` seconds each is
/// positive and ends within reach from every instant that the clock gives:
/// a token with such a lifetime can be issued whenever it is asked for.
pub open spec fn within_reach(lifetime: int, unit_seconds: int) -> bool {
    0 < lifetime && lifetime * unit_seconds <= i64::MAX - LATEST_INSTANT
}

/// The expiry of a token issued at `now` that lives `lifetime` units of
/// `unit_seconds` seconds each.
fn expiry_after(now: i64, lifetime: i64, unit_seconds: i64) -> (at: Option<i64>)
    requires
        unit_seconds == 60 || unit_seconds == 3600,
    ensures
        match at {
            Some(exp) => expiry(now as int, lifetime * unit_seconds) == Some(exp as int),
            None => expiry(now as int, lifetime * unit_seconds) is None,
        },
{
    if lifetime <= 0 {
        return None;
    }
    let seconds: i128 = if unit_seconds == 60 {
        lifetime as i128 * 60
    } else {
        lifetime as i128 * 3600
    };
    let at: i128 = now as i128 + seconds;
    if at <= i64::MAX as i128 {
        Some(at as i64)
    } else {
        None
    }
}

/// Issues an access token for `user` at the instant `now`, to live
/// `ttl_minutes` minutes.
///
/// A token is issued exactly where the lifetime is positive and the expiry
/// is an instant that an `i64` holds. Its claims are those of `user` with
/// `iat = now` and `exp = now + 60 * ttl_minutes`, so the expiry is later
/// than the issue. The token is what signing that payload under `secret`
/// gives, and that payload is what is read from it under `secret`. The
/// token verifies under `secret`, at any instant up to its expiry, to
/// exactly these claims. Under any other secret it is malformed, unless that
/// secret signs the payload to the same token.
pub fn issue_access_token(user: &AuthUser, secret: &str, ttl_minutes: i64, now: i64) -> (issued:
    Result<String, IssueError>)
    ensures
        match access_token_of(user@, secret@, ttl_minutes as int, now as int) {
            Some(token) => issued is Ok && issued->Ok_0@ == token,
            None => issued == Err::<String, IssueError>(IssueError::Lifetime),
        },
        issued is Ok ==> now < expiry(now as int, ttl_minutes * 60)->0,
        issued is Ok ==> issued->Ok_0@.len() > 0,
        issued is Ok ==> well_signed(issued->Ok_0@, secret@),
        issued is Ok ==> jwt_payload(issued->Ok_0@, secret@) == Some(
            access_entries(
                access_claims(user@, expiry(now as int, ttl_minutes * 60)->0, now as int),
            ),
        ),
        issued is Ok ==> forall|at: int|
            at <= expiry(now as int, ttl_minutes * 60)->0 ==> #[trigger] access_verdict(
                issued->Ok_0@,
                secret@,
                at,
            ) == Ok::<AccessClaims, TokenError>(
                access_claims(user@, expiry(now as int, ttl_minutes * 60)->0, now as int),
            ),
        issued is Ok ==> forall|other: Seq<char>, at: int|
            jwt_encoding(
                access_entries(
                    access_claims(user@, expiry(now as int, ttl_minutes * 60)->0, now as int),
                ),
                other,
            ) != issued->Ok_0@ ==> #[trigger] access_verdict(issued->Ok_0@, other, at) == Err::<
                AccessClaims,
                TokenError,
            >(TokenError::Malformed),
{
    let exp = match expiry_after(now, ttl_minutes, 60) {
        Some(value) => value,
        None => {
            return Err(IssueError::Lifetime);
        },
    };
    let claims = AccessTokenClaims::new(user.clone_identity(), exp, now);
    let payload = claims.to_payload();
    match sign_claims(&payload, secret) {
        Ok(token) => Ok(token),
        Err(_) => vstd::pervasive::unreached(),
    }
}

/// Issues a refresh token for `user` of kind `user_type` at the instant
/// `now`, to live `ttl_hours` hours.
///
/// As [`issue_access_token`], with `exp = now + 3600 * ttl_hours` and the
/// kind of user among the claims.
pub fn issue_refresh_token(
    user: &AuthUser,
    user_type: i32,
    secret: &str,
    ttl_hours: i64,
    now: i64,
) -> (issued: Result<String, IssueError>)
    ensures
        match refresh_token_of(user@, user_type as int, secret@, ttl_hours as int, now as int) {
            Some(token) => issued is Ok && issued->Ok_0@ == token,
            None => issued == Err::<String, IssueError>(IssueError::Lifetime),
        },
        issued is Ok ==> now < expiry(now as int, ttl_hours * 3600)->0,
        issued is Ok ==> issued->Ok_0@.len() > 0,
        issued is Ok ==> well_signed(issued->Ok_0@, secret@),
        issued is Ok ==> jwt_payload(issued->Ok_0@, secret@) == Some(
            refresh_entries(
                refresh_claims(
                    user@,
                    user_type as int,
                    expiry(now as int, ttl_hours * 3600)->0,
                    now as int,
                ),
            ),
        ),
        issued is Ok ==> forall|at: int|
            at <= expiry(now as int, ttl_hours * 3600)->0 ==> #[trigger] refresh_verdict(
                issued->Ok_0@,
                secret@,
                at,
            ) == Ok::<RefreshClaims, TokenError>(
                refresh_claims(
                    user@,
                    user_type as int,
                    expiry(now as int, ttl_hours * 3600)->0,
                    now as int,
                ),
            ),
        issued is Ok ==> forall|other: Seq<char>, at: int|
            jwt_encoding(
                refresh_entries(
                    refresh_claims(
                        user@,
                        user_type as int,
                        expiry(now as int, ttl_hours * 3600)->0,
                        now as int,
                    ),
                ),
                other,
            ) != issued->Ok_0@ ==> #[trigger] refresh_verdict(issued->Ok_0@, other, at) == Err::<
                RefreshClaims,
                TokenError,
            >(TokenError::Malformed),
{
    let exp = match expiry_after(now, ttl_hours, 3600) {
        Some(value) => value,
        None => {
            return Err(IssueError::Lifetime);
        },
    };
    let claims = RefreshTokenClaims::new(user.clone_identity(), user_type, exp, now);
    let payload = claims.to_payload();
    match sign_claims(&payload, secret) {
        Ok(token) => Ok(token),
        Err(_) => vstd::pervasive::unreached(),
    }
}

/// Verifies an access token at the instant `now`: the claims it states, or
/// why it is not accepted. A token whose expiry is `now` itself is still
/// accepted.
pub fn verify_access_token(token: &str, secret: &str, now: i64) -> (verified: Result<
    AccessTokenClaims,
    TokenError,
>)
    ensures
        match access_verdict(token@, secret@, now as int) {
            Ok(claims) => verified is Ok && verified->Ok_0@ == claims,
            Err(error) => verified == Err::<AccessTokenClaims, TokenError>(error),
        },
        verified is Ok ==> well_signed(token@, secret@),
{
    let payload = match open_claims(token, secret) {
        Ok(object) => object,
        Err(_) => {
            return Err(TokenError::Malformed);
        },
    };
    let claims = match AccessTokenClaims::from_payload(&payload) {
        Some(value) => value,
        None => {
            return Err(TokenError::Malformed);
        },
    };
    if claims.exp < now {
        return Err(TokenError::Expired);
    }
    Ok(claims)
}

/// Verifies a refresh token at the instant `now`: the claims it states, or
/// why it is not accepted. A token whose expiry is `now` itself is still
/// accepted.
pub fn verify_refresh_token(token: &str, secret: &str, now: i64) -> (verified: Result<
    RefreshTokenClaims,
    TokenError,
>)
    ensures
        match refresh_verdict(token@, secret@, now as int) {
            Ok(claims) => verified is Ok && verified->Ok_0@ == claims,
            Err(error) => verified == Err::<RefreshTokenClaims, TokenError>(error),
        },
        verified is Ok ==> well_signed(token@, secret@),
{
    let payload = match open_claims(token, secret) {
        Ok(object) => object,
        Err(_) => {
            return Err(TokenError::Malformed);
        },
    };
    let claims = match RefreshTokenClaims::from_payload(&payload) {
        Some(value) => value,
        None => {
            return Err(TokenError::Malformed);
        },
    };
    if claims.exp < now {
        return Err(TokenError::Expired);
    }
    Ok(claims)
}

/// Issues an access token at the instant of the call, for the identity
/// given field by field.
///
/// The token is the one that [`issue_access_token`] issues at some instant:
/// the one that the clock gave. A lifetime that is not positive gives no
/// token, whatever the instant; a positive lifetime whose end is within
/// reach from every instant of the clock gives one.
pub fn create_access_token(
    user_id: i32,
    shop_id: i32,
    shop_mother_id: i32,
    role_id: i32,
    shop_role_id: i32,
    user_email: String,
    sr_discount_type_id: i32,
    sr_discount: serde_json::Number,
    password_version: i32,
    secret: &str,
    ttl_minutes: i64,
) -> (issued: Result<String, IssueError>)
    ensures
        ttl_minutes <= 0 ==> issued == Err::<String, IssueError>(IssueError::Lifetime),
        within_reach(ttl_minutes as int, 60) ==> issued is Ok,
        issued is Ok ==> issued->Ok_0@.len() > 0 && well_signed(issued->Ok_0@, secret@),
        exists|now: i64|
            0 <= now <= LATEST_INSTANT && match #[trigger] access_token_of(
                identity_of_fields(
                    user_id,
                    shop_id,
                    shop_mother_id,
                    role_id,
                    shop_role_id,
                    user_email@,
                    sr_discount_type_id,
                    sr_discount,
                    password_version,
                ),
                secret@,
                ttl_minutes as int,
                now as int,
            ) {
                Some(token) => issued is Ok && issued->Ok_0@ == token,
                None => issued == Err::<String, IssueError>(IssueError::Lifetime),
            },
{
    let user = AuthUser {
        user_id,
        shop_id,
        shop_mother_id,
        role_id,
        shop_role_id,
        user_email,
        sr_discount_type_id,
        sr_discount,
        password_version,
    };
    let now = unix_now();
    let issued = issue_access_token(&user, secret, ttl_minutes, now);
    proof {
        let who = identity_of_fields(
            user_id,
            shop_id,
            shop_mother_id,
            role_id,
            shop_role_id,
            user_email@,
            sr_discount_type_id,
            sr_discount,
            password_version,
        );
        assert(user@ == who);
        let _ = access_token_of(who, secret@, ttl_minutes as int, now as int);
    }
    issued
}

/// Issues a refresh token at the instant of the call, for the identity
/// given field by field.
///
/// The token is the one that [`issue_refresh_token`] issues at some instant:
/// the one that the clock gave. A lifetime that is not positive gives no
/// token, whatever the instant; a positive lifetime whose end is within
/// reach from every instant of the clock gives one.
pub fn create_refresh_token(
    user_id: i32,
    shop_id: i32,
    shop_mother_id: i32,
    role_id: i32,
    shop_role_id: i32,
    user_email: String,
    sr_discount_type_id: i32,
    sr_discount: serde_json::Number,
    password_version: i32,
    user_type: i32,
    secret: &str,
    ttl_hours: i64,
) -> (issued: Result<String, IssueError>)
    ensures
        ttl_hours <= 0 ==> issued == Err::<String, IssueError>(IssueError::Lifetime),
        within_reach(ttl_hours as int, 3600) ==> issued is Ok,
        issued is Ok ==> issued->Ok_0@.len() > 0 && well_signed(issued->Ok_0@, secret@),
        exists|now: i64|
            0 <= now <= LATEST_INSTANT && match #[trigger] refresh_token_of(
                identity_of_fields(
                    user_id,
                    shop_id,
                    shop_mother_id,
                    role_id,
                    shop_role_id,
                    user_email@,
                    sr_discount_type_id,
                    sr_discount,
                    password_version,
                ),
                user_type as int,
                secret@,
                ttl_hours as int,
                now as int,
            ) {
                Some(token) => issued is Ok && issued->Ok_0@ == token,
                None => issued == Err::<String, IssueError>(IssueError::Lifetime),
            },
{
    let user = AuthUser {
        user_id,
        shop_id,
        shop_mother_id,
        role_id,
        shop_role_id,
        user_email,
        sr_discount_type_id,
        sr_discount,
        password_version,
    };
    let now = unix_now();
    let issued = issue_refresh_token(&user, user_type, secret, ttl_hours, now);
    proof {
        let who = identity_of_fields(
            user_id,
            shop_id,
            shop_mother_id,
            role_id,
            shop_role_id,
            user_email@,
            sr_discount_type_id,
            sr_discount,
            password_version,
        );
        assert(user@ == who);
        let _ = refresh_token_of(who, user_type as int, secret@, ttl_hours as int, now as int);
    }
    issued
}

/// The identity with these nine fields.
pub open spec fn identity_of_fields(
    user_id: i32,
    shop_id: i32,
    shop_mother_id: i32,
    role_id: i32,
    shop_role_id: i32,
    user_email: Seq<char>,
    sr_discount_type_id: i32,
    sr_discount: serde_json::Number,
    password_version: i32,
) -> Identity {
    Identity {
        user_id: user_id as int,
        shop_id: shop_id as int,
        shop_mother_id: shop_mother_id as int,
        role_id: role_id as int,
        shop_role_id: shop_role_id as int,
        user_email,
        sr_discount_type_id: sr_discount_type_id as int,
        sr_discount,
        password_version: password_version as int,
    }
}

} // verus!

//! The identity facts that a token carries, and their layout as a JSON object.
//!
//! A payload is a flat JSON object. Integers are JSON numbers, the e-mail
//! address is a JSON string, and the discount rate is the JSON number that the
//! caller handed in, carried through untouched.

use crate::json::int_number;
use crate::json::json_number_at;
use crate::json::json_object_new;
use crate::json::json_put_number;
use crate::json::json_put_text;
use crate::json::json_text_at;
use crate::json::number_at;
use crate::json::number_from_int;
use crate::json::number_int;
use crate::json::number_to_int;
use crate::json::text_at;
use crate::json::json_entries;
use crate::json::JsonItem;
use crate::json::JsonObject;
use vstd::prelude::*;

verus! {

/// Who a verified request acts for: the projection of a token's claims that
/// handlers read.
#[derive(Debug, Clone)]
pub struct AuthUser {
    pub user_id: i32,
    pub shop_id: i32,
    pub shop_mother_id: i32,
    pub role_id: i32,
    pub shop_role_id: i32,
    pub user_email: String,
    pub sr_discount_type_id: i32,
    /// The discount rate, as the JSON number that stands in the token.
    pub sr_discount: serde_json::Number,
    pub password_version: i32,
}

/// The claims of an access token.
#[derive(Debug, Clone)]
pub struct AccessTokenClaims {
    pub user_id: i32,
    pub shop_id: i32,
    pub shop_mother_id: i32,
    pub role_id: i32,
    pub shop_role_id: i32,
    pub user_email: String,
    pub sr_discount_type_id: i32,
    /// The discount rate, as the JSON number that stands in the token.
    pub sr_discount: serde_json::Number,
    pub password_version: i32,
    /// Expiry, in seconds since the Unix epoch.
    pub exp: i64,
    /// Time of issue, in seconds since the Unix epoch.
    pub iat: i64,
}

/// The claims of a refresh token: those of an access token and the kind of
/// user.
#[derive(Debug, Clone)]
pub struct RefreshTokenClaims {
    pub user_id: i32,
    pub shop_id: i32,
    pub shop_mother_id: i32,
    pub role_id: i32,
    pub shop_role_id: i32,
    pub user_email: String,
    pub sr_discount_type_id: i32,
    /// The discount rate, as the JSON number that stands in the token.
    pub sr_discount: serde_json::Number,
    pub password_version: i32,
    pub user_type: i32,
    /// Expiry, in seconds since the Unix epoch.
    pub exp: i64,
    /// Time of issue, in seconds since the Unix epoch.
    pub iat: i64,
}

/// The identity part of a claim set, as mathematical values.
pub struct Identity {
    pub user_id: int,
    pub shop_id: int,
    pub shop_mother_id: int,
    pub role_id: int,
    pub shop_role_id: int,
    pub user_email: Seq<char>,
    pub sr_discount_type_id: int,
    pub sr_discount: serde_json::Number,
    pub password_version: int,
}

/// An access token's claims, as mathematical values.
pub struct AccessClaims {
    pub identity: Identity,
    pub exp: int,
    pub iat: int,
}

/// A refresh token's claims, as mathematical values.
pub struct RefreshClaims {
    pub identity: Identity,
    pub user_type: int,
    pub exp: int,
    pub iat: int,
}

impl View for AuthUser {
    type V = Identity;

    open spec fn view(&self) -> Identity {
        Identity {
            user_id: self.user_id as int,
            shop_id: self.shop_id as int,
            shop_mother_id: self.shop_mother_id as int,
            role_id: self.role_id as int,
            shop_role_id: self.shop_role_id as int,
            user_email: self.user_email@,
            sr_discount_type_id: self.sr_discount_type_id as int,
            sr_discount: self.sr_discount,
            password_version: self.password_version as int,
        }
    }
}

impl View for AccessTokenClaims {
    type V = AccessClaims;

    open spec fn view(&self) -> AccessClaims {
        AccessClaims {
            identity: Identity {
                user_id: self.user_id as int,
                shop_id: self.shop_id as int,
                shop_mother_id: self.shop_mother_id as int,
                role_id: self.role_id as int,
                shop_role_id: self.shop_role_id as int,
                user_email: self.user_email@,
                sr_discount_type_id: self.sr_discount_type_id as int,
                sr_discount: self.sr_discount,
                password_version: self.password_version as int,
            },
            exp: self.exp as int,
            iat: self.iat as int,
        }
    }
}

impl View for RefreshTokenClaims {
    type V = RefreshClaims;

    open spec fn view(&self) -> RefreshClaims {
        RefreshClaims {
            identity: Identity {
                user_id: self.user_id as int,
                shop_id: self.shop_id as int,
                shop_mother_id: self.shop_mother_id as int,
                role_id: self.role_id as int,
                shop_role_id: self.shop_role_id as int,
                user_email: self.user_email@,
                sr_discount_type_id: self.sr_discount_type_id as int,
                sr_discount: self.sr_discount,
                password_version: self.password_version as int,
            },
            user_type: self.user_type as int,
            exp: self.exp as int,
            iat: self.iat as int,
        }
    }
}

/// Whether `value` is one that an `i32` holds.
pub open spec fn fits_i32(value: int) -> bool {
    i32::MIN <= value <= i32::MAX
}

/// Whether `value` is one that an `i64` holds.
pub open spec fn fits_i64(value: int) -> bool {
    i64::MIN <= value <= i64::MAX
}

impl Identity {
    /// Whether every integer of the identity is one that an `i32` holds.
    pub open spec fn in_range(self) -> bool {
        &&& fits_i32(self.user_id)
        &&& fits_i32(self.shop_id)
        &&& fits_i32(self.shop_mother_id)
        &&& fits_i32(self.role_id)
        &&& fits_i32(self.shop_role_id)
        &&& fits_i32(self.sr_discount_type_id)
        &&& fits_i32(self.password_version)
    }
}

/// The entry that holds an integer.
pub open spec fn int_item(value: int) -> JsonItem {
    JsonItem::Number(int_number(value))
}

/// `base` with the nine entries of an identity set.
pub open spec fn with_identity(base: Map<Seq<char>, JsonItem>, who: Identity) -> Map<
    Seq<char>,
    JsonItem,
> {
    base.insert("user_id"@, int_item(who.user_id)).insert("shop_id"@, int_item(who.shop_id)).insert(
        "shop_mother_id"@,
        int_item(who.shop_mother_id),
    ).insert("role_id"@, int_item(who.role_id)).insert(
        "shop_role_id"@,
        int_item(who.shop_role_id),
    ).insert("user_email"@, JsonItem::Text(who.user_email)).insert(
        "sr_discount_type_id"@,
        int_item(who.sr_discount_type_id),
    ).insert("sr_discount"@, JsonItem::Number(who.sr_discount)).insert(
        "password_version"@,
        int_item(who.password_version),
    )
}

/// The payload of an access token.
pub open spec fn access_entries(claims: AccessClaims) -> Map<Seq<char>, JsonItem> {
    with_identity(Map::empty(), claims.identity).insert("exp"@, int_item(claims.exp)).insert(
        "iat"@,
        int_item(claims.iat),
    )
}

/// The payload of a refresh token.
pub open spec fn refresh_entries(claims: RefreshClaims) -> Map<Seq<char>, JsonItem> {
    with_identity(Map::empty(), claims.identity).insert(
        "user_type"@,
        int_item(claims.user_type),
    ).insert("exp"@, int_item(claims.exp)).insert("iat"@, int_item(claims.iat))
}

/// The integer under `key`, where the entry is a number that stands for one.
pub open spec fn int_at(entries: Map<Seq<char>, JsonItem>, key: Seq<char>) -> Option<int> {
    match number_at(entries, key) {
        Some(number) => number_int(number),
        None => None,
    }
}

/// The integer under `key`, where there is one and an `i32` holds it.
pub open spec fn i32_at(entries: Map<Seq<char>, JsonItem>, key: Seq<char>) -> Option<int> {
    match int_at(entries, key) {
        Some(value) => if fits_i32(value) {
            Some(value)
        } else {
            None
        },
        None => None,
    }
}

/// The integer under `key`, where there is one and an `i64` holds it.
pub open spec fn i64_at(entries: Map<Seq<char>, JsonItem>, key: Seq<char>) -> Option<int> {
    match int_at(entries, key) {
        Some(value) => if fits_i64(value) {
            Some(value)
        } else {
            None
        },
        None => None,
    }
}

/// The identity that a payload states: every one of the nine entries must be
/// there with its kind, and every integer within `i32`.
pub open spec fn identity_of(entries: Map<Seq<char>, JsonItem>) -> Option<Identity> {
    if i32_at(entries, "user_id"@) is Some && i32_at(entries, "shop_id"@) is Some && i32_at(
        entries,
        "shop_mother_id"@,
    ) is Some && i32_at(entries, "role_id"@) is Some && i32_at(entries, "shop_role_id"@) is Some
        && text_at(entries, "user_email"@) is Some && i32_at(entries, "sr_discount_type_id"@)
        is Some && number_at(entries, "sr_discount"@) is Some && i32_at(
        entries,
        "password_version"@,
    ) is Some {
        Some(
            Identity {
                user_id: i32_at(entries, "user_id"@)->0,
                shop_id: i32_at(entries, "shop_id"@)->0,
                shop_mother_id: i32_at(entries, "shop_mother_id"@)->0,
                role_id: i32_at(entries, "role_id"@)->0,
                shop_role_id: i32_at(entries, "shop_role_id"@)->0,
                user_email: text_at(entries, "user_email"@)->0,
                sr_discount_type_id: i32_at(entries, "sr_discount_type_id"@)->0,
                sr_discount: number_at(entries, "sr_discount"@)->0,
                password_version: i32_at(entries, "password_version"@)->0,
            },
        )
    } else {
        None
    }
}

/// The access claims that a payload states, if it states any.
pub open spec fn access_claims_of(entries: Map<Seq<char>, JsonItem>) -> Option<AccessClaims> {
    if identity_of(entries) is Some && i64_at(entries, "exp"@) is Some && i64_at(
        entries,
        "iat"@,
    ) is Some {
        Some(
            AccessClaims {
                identity: identity_of(entries)->0,
                exp: i64_at(entries, "exp"@)->0,
                iat: i64_at(entries, "iat"@)->0,
            },
        )
    } else {
        None
    }
}

/// The refresh claims that a payload states, if it states any.
pub open spec fn refresh_claims_of(entries: Map<Seq<char>, JsonItem>) -> Option<RefreshClaims> {
    if identity_of(entries) is Some && i32_at(entries, "user_type"@) is Some && i64_at(
        entries,
        "exp"@,
    ) is Some && i64_at(entries, "iat"@) is Some {
        Some(
            RefreshClaims {
                identity: identity_of(entries)->0,
                user_type: i32_at(entries, "user_type"@)->0,
                exp: i64_at(entries, "exp"@)->0,
                iat: i64_at(entries, "iat"@)->0,
            },
        )
    } else {
        None
    }
}

/// Whether an integer and the number that stands for it read back as each
/// other.
pub open spec fn reads_back(value: int) -> bool {
    number_int(int_number(value)) == Some(value)
}

/// The keys of a payload differ from each other and from `aud`: what their
/// lengths and first letters are.
pub proof fn lemma_claim_keys()
    ensures
        "user_id"@.len() == 7 && "user_id"@[0] == 'u',
        "shop_id"@.len() == 7 && "shop_id"@[0] == 's',
        "role_id"@.len() == 7 && "role_id"@[0] == 'r',
        "shop_mother_id"@.len() == 14,
        "shop_role_id"@.len() == 12,
        "user_email"@.len() == 10,
        "sr_discount_type_id"@.len() == 19,
        "sr_discount"@.len() == 11,
        "password_version"@.len() == 16,
        "user_type"@.len() == 9,
        "exp"@.len() == 3 && "exp"@[0] == 'e',
        "iat"@.len() == 3 && "iat"@[0] == 'i',
        "aud"@.len() == 3 && "aud"@[0] == 'a',
{
    reveal_strlit("user_id");
    reveal_strlit("shop_id");
    reveal_strlit("role_id");
    reveal_strlit("shop_mother_id");
    reveal_strlit("shop_role_id");
    reveal_strlit("user_email");
    reveal_strlit("sr_discount_type_id");
    reveal_strlit("sr_discount");
    reveal_strlit("password_version");
    reveal_strlit("user_type");
    reveal_strlit("exp");
    reveal_strlit("iat");
    reveal_strlit("aud");
}

/// An identity written into a payload is the identity read from it, whatever
/// the payload held before.
pub proof fn lemma_identity_reads_back(base: Map<Seq<char>, JsonItem>, who: Identity)
    requires
        who.in_range(),
        reads_back(who.user_id),
        reads_back(who.shop_id),
        reads_back(who.shop_mother_id),
        reads_back(who.role_id),
        reads_back(who.shop_role_id),
        reads_back(who.sr_discount_type_id),
        reads_back(who.password_version),
    ensures
        identity_of(with_identity(base, who)) == Some(who),
{
    lemma_claim_keys();
}

/// Entries set under keys that an identity does not use leave the identity
/// that a payload states as it was.
pub proof fn lemma_identity_kept(entries: Map<Seq<char>, JsonItem>, key: Seq<char>, item: JsonItem)
    requires
        key == "exp"@ || key == "iat"@ || key == "user_type"@,
    ensures
        identity_of(entries.insert(key, item)) == identity_of(entries),
{
    lemma_claim_keys();
}

/// The integer under `key`, where there is one and an `i64` holds it.
pub fn read_i64(object: &JsonObject, key: &str) -> (found: Option<i64>)
    ensures
        match found {
            Some(value) => i64_at(json_entries(*object), key@) == Some(value as int),
            None => i64_at(json_entries(*object), key@) is None,
        },
{
    match json_number_at(object, key) {
        Some(number) => number_to_int(&number),
        None => None,
    }
}

/// The integer under `key`, where there is one and an `i32` holds it.
pub fn read_i32(object: &JsonObject, key: &str) -> (found: Option<i32>)
    ensures
        match found {
            Some(value) => i32_at(json_entries(*object), key@) == Some(value as int),
            None => i32_at(json_entries(*object), key@) is None,
        },
{
    match read_i64(object, key) {
        Some(value) => {
            if -2147483648 <= value && value <= 2147483647 {
                Some(value as i32)
            } else {
                None
            }
        },
        None => None,
    }
}

/// Whether a payload holds numbers, texts and booleans only: no entry is
/// null, an array or an object.
pub open spec fn only_scalars(entries: Map<Seq<char>, JsonItem>) -> bool {
    forall|key: Seq<char>| entries.dom().contains(key) ==> !(#[trigger] entries[key] is Other)
}

/// Sets the nine entries of an identity.
pub fn put_identity(object: &mut JsonObject, user: &AuthUser)
    ensures
        json_entries(*final(object)) == with_identity(json_entries(*old(object)), user@),
        identity_of(json_entries(*final(object))) == Some(user@),
{
    json_put_number(object, "user_id", number_from_int(user.user_id as i64));
    json_put_number(object, "shop_id", number_from_int(user.shop_id as i64));
    json_put_number(object, "shop_mother_id", number_from_int(user.shop_mother_id as i64));
    json_put_number(object, "role_id", number_from_int(user.role_id as i64));
    json_put_number(object, "shop_role_id", number_from_int(user.shop_role_id as i64));
    json_put_text(object, "user_email", user.user_email.as_str());
    json_put_number(
        object,
        "sr_discount_type_id",
        number_from_int(user.sr_discount_type_id as i64),
    );
    json_put_number(object, "sr_discount", user.sr_discount.clone());
    json_put_number(object, "password_version", number_from_int(user.password_version as i64));
    proof {
        lemma_identity_reads_back(json_entries(*old(object)), user@);
    }
}

/// The identity that a payload states, if it states one.
pub fn read_identity(object: &JsonObject) -> (found: Option<AuthUser>)
    ensures
        match found {
            Some(user) => identity_of(json_entries(*object)) == Some(user@),
            None => identity_of(json_entries(*object)) is None,
        },
{
    let user_id = match read_i32(object, "user_id") {
        Some(value) => value,
        None => return None,
    };
    let shop_id = match read_i32(object, "shop_id") {
        Some(value) => value,
        None => return None,
    };
    let shop_mother_id = match read_i32(object, "shop_mother_id") {
        Some(value) => value,
        None => return None,
    };
    let role_id = match read_i32(object, "role_id") {
        Some(value) => value,
        None => return None,
    };
    let shop_role_id = match read_i32(object, "shop_role_id") {
        Some(value) => value,
        None => return None,
    };
    let user_email = match json_text_at(object, "user_email") {
        Some(value) => value,
        None => return None,
    };
    let sr_discount_type_id = match read_i32(object, "sr_discount_type_id") {
        Some(value) => value,
        None => return None,
    };
    let sr_discount = match json_number_at(object, "sr_discount") {
        Some(value) => value,
        None => return None,
    };
    let password_version = match read_i32(object, "password_version") {
        Some(value) => value,
        None => return None,
    };
    Some(
        AuthUser {
            user_id,
            shop_id,
            shop_mother_id,
            role_id,
            shop_role_id,
            user_email,
            sr_discount_type_id,
            sr_discount,
            password_version,
        },
    )
}

impl AuthUser {
    /// A copy of the identity. No field is changed.
    pub fn clone_identity(&self) -> (user: AuthUser)
        ensures
            user@ == self@,
    {
        AuthUser {
            user_id: self.user_id,
            shop_id: self.shop_id,
            shop_mother_id: self.shop_mother_id,
            role_id: self.role_id,
            shop_role_id: self.shop_role_id,
            user_email: self.user_email.clone(),
            sr_discount_type_id: self.sr_discount_type_id,
            sr_discount: self.sr_discount.clone(),
            password_version: self.password_version,
        }
    }
}

/// The access claims of `who`, issued at `iat` and running out at `exp`.
pub open spec fn access_claims(who: Identity, exp: int, iat: int) -> AccessClaims {
    AccessClaims { identity: who, exp, iat }
}

/// The refresh claims of `who`, issued at `iat` and running out at `exp`.
pub open spec fn refresh_claims(who: Identity, user_type: int, exp: int, iat: int) -> RefreshClaims {
    RefreshClaims { identity: who, user_type, exp, iat }
}

impl AccessTokenClaims {
    /// The claims of `user`, issued at `iat` and running out at `exp`.
    pub fn new(user: AuthUser, exp: i64, iat: i64) -> (claims: AccessTokenClaims)
        ensures
            claims@ == access_claims(user@, exp as int, iat as int),
    {
        AccessTokenClaims {
            user_id: user.user_id,
            shop_id: user.shop_id,
            shop_mother_id: user.shop_mother_id,
            role_id: user.role_id,
            shop_role_id: user.shop_role_id,
            user_email: user.user_email,
            sr_discount_type_id: user.sr_discount_type_id,
            sr_discount: user.sr_discount,
            password_version: user.password_version,
            exp,
            iat,
        }
    }

    /// The identity that the claims state: what a guard attaches to the
    /// request. No field is changed.
    pub fn into_auth_user(self) -> (user: AuthUser)
        ensures
            user@ == self@.identity,
    {
        AuthUser {
            user_id: self.user_id,
            shop_id: self.shop_id,
            shop_mother_id: self.shop_mother_id,
            role_id: self.role_id,
            shop_role_id: self.shop_role_id,
            user_email: self.user_email,
            sr_discount_type_id: self.sr_discount_type_id,
            sr_discount: self.sr_discount,
            password_version: self.password_version,
        }
    }

    /// A copy of the identity that the claims state.
    pub fn identity(&self) -> (user: AuthUser)
        ensures
            user@ == self@.identity,
    {
        AuthUser {
            user_id: self.user_id,
            shop_id: self.shop_id,
            shop_mother_id: self.shop_mother_id,
            role_id: self.role_id,
            shop_role_id: self.shop_role_id,
            user_email: self.user_email.clone(),
            sr_discount_type_id: self.sr_discount_type_id,
            sr_discount: self.sr_discount.clone(),
            password_version: self.password_version,
        }
    }

    /// The payload that states these claims. Reading it gives the claims
    /// back.
    pub fn to_payload(&self) -> (object: JsonObject)
        ensures
            json_entries(object) == access_entries(self@),
            access_claims_of(json_entries(object)) == Some(self@),
            only_scalars(json_entries(object)),
            !json_entries(object).dom().contains("aud"@),
    {
        let mut object = json_object_new();
        let user = self.identity();
        put_identity(&mut object, &user);
        let ghost with_who = json_entries(object);
        json_put_number(&mut object, "exp", number_from_int(self.exp));
        let ghost with_exp = json_entries(object);
        json_put_number(&mut object, "iat", number_from_int(self.iat));
        proof {
            lemma_claim_keys();
            lemma_identity_kept(with_who, "exp"@, int_item(self.exp as int));
            lemma_identity_kept(with_exp, "iat"@, int_item(self.iat as int));
        }
        object
    }

    /// The claims that a payload states, if it states any.
    pub fn from_payload(object: &JsonObject) -> (found: Option<AccessTokenClaims>)
        ensures
            match found {
                Some(claims) => access_claims_of(json_entries(*object)) == Some(claims@),
                None => access_claims_of(json_entries(*object)) is None,
            },
    {
        let user = match read_identity(object) {
            Some(value) => value,
            None => return None,
        };
        let exp = match read_i64(object, "exp") {
            Some(value) => value,
            None => return None,
        };
        let iat = match read_i64(object, "iat") {
            Some(value) => value,
            None => return None,
        };
        Some(AccessTokenClaims::new(user, exp, iat))
    }
}

impl RefreshTokenClaims {
    /// The claims of `user`, issued at `iat` and running out at `exp`.
    pub fn new(user: AuthUser, user_type: i32, exp: i64, iat: i64) -> (claims: RefreshTokenClaims)
        ensures
            claims@ == refresh_claims(user@, user_type as int, exp as int, iat as int),
    {
        RefreshTokenClaims {
            user_id: user.user_id,
            shop_id: user.shop_id,
            shop_mother_id: user.shop_mother_id,
            role_id: user.role_id,
            shop_role_id: user.shop_role_id,
            user_email: user.user_email,
            sr_discount_type_id: user.sr_discount_type_id,
            sr_discount: user.sr_discount,
            password_version: user.password_version,
            user_type,
            exp,
            iat,
        }
    }

    /// A copy of the identity that the claims state.
    pub fn identity(&self) -> (user: AuthUser)
        ensures
            user@ == self@.identity,
    {
        AuthUser {
            user_id: self.user_id,
            shop_id: self.shop_id,
            shop_mother_id: self.shop_mother_id,
            role_id: self.role_id,
            shop_role_id: self.shop_role_id,
            user_email: self.user_email.clone(),
            sr_discount_type_id: self.sr_discount_type_id,
            sr_discount: self.sr_discount.clone(),
            password_version: self.password_version,
        }
    }

    /// The payload that states these claims. Reading it gives the claims
    /// back.
    pub fn to_payload(&self) -> (object: JsonObject)
        ensures
            json_entries(object) == refresh_entries(self@),
            refresh_claims_of(json_entries(object)) == Some(self@),
            only_scalars(json_entries(object)),
            !json_entries(object).dom().contains("aud"@),
    {
        let mut object = json_object_new();
        let user = self.identity();
        put_identity(&mut object, &user);
        let ghost with_who = json_entries(object);
        json_put_number(&mut object, "user_type", number_from_int(self.user_type as i64));
        let ghost with_kind = json_entries(object);
        json_put_number(&mut object, "exp", number_from_int(self.exp));
        let ghost with_exp = json_entries(object);
        json_put_number(&mut object, "iat", number_from_int(self.iat));
        proof {
            lemma_claim_keys();
            lemma_identity_kept(with_who, "user_type"@, int_item(self.user_type as int));
            lemma_identity_kept(with_kind, "exp"@, int_item(self.exp as int));
            lemma_identity_kept(with_exp, "iat"@, int_item(self.iat as int));
        }
        object
    }

    /// The claims that a payload states, if it states any.
    pub fn from_payload(object: &JsonObject) -> (found: Option<RefreshTokenClaims>)
        ensures
            match found {
                Some(claims) => refresh_claims_of(json_entries(*object)) == Some(claims@),
                None => refresh_claims_of(json_entries(*object)) is None,
            },
    {
        let user = match read_identity(object) {
            Some(value) => value,
            None => return None,
        };
        let user_type = match read_i32(object, "user_type") {
            Some(value) => value,
            None => return None,
        };
        let exp = match read_i64(object, "exp") {
            Some(value) => value,
            None => return None,
        };
        let iat = match read_i64(object, "iat") {
            Some(value) => value,
            None => return None,
        };
        Some(RefreshTokenClaims::new(user, user_type, exp, iat))
    }
}

} // verus!

use base64::Engine;
use clinic_api::claims::AccessTokenClaims;
use clinic_api::claims::AuthUser;
use clinic_api::claims::RefreshTokenClaims;
use clinic_api::token::create_access_token;
use clinic_api::token::create_refresh_token;
use clinic_api::token::issue_access_token;
use clinic_api::token::issue_refresh_token;
use clinic_api::token::verify_access_token;
use clinic_api::token::verify_refresh_token;
use clinic_api::token::IssueError;
use clinic_api::token::TokenError;
use clinic_api::token::DEFAULT_ACCESS_TTL_MINUTES;
use clinic_api::token::DEFAULT_REFRESH_TTL_HOURS;

fn rate(value: f64) -> serde_json::Number {
    serde_json::Number::from_f64(value).unwrap()
}

fn user() -> AuthUser {
    AuthUser {
        user_id: 7,
        shop_id: 3,
        shop_mother_id: 2,
        role_id: 5,
        shop_role_id: 11,
        user_email: "a@b.com".to_string(),
        sr_discount_type_id: 4,
        sr_discount: rate(12.5),
        password_version: 9,
    }
}

fn payload_of(token: &str) -> String {
    let segments: Vec<&str> = token.split('.').collect();
    assert_eq!(segments.len(), 3);
    let bytes = base64::engine::general_purpose::URL_SAFE_NO_PAD.decode(segments[1]).unwrap();
    String::from_utf8(bytes).unwrap()
}

fn assert_same_identity(claims: &AccessTokenClaims, user: &AuthUser) {
    assert_eq!(claims.user_id, user.user_id);
    assert_eq!(claims.shop_id, user.shop_id);
    assert_eq!(claims.shop_mother_id, user.shop_mother_id);
    assert_eq!(claims.role_id, user.role_id);
    assert_eq!(claims.shop_role_id, user.shop_role_id);
    assert_eq!(claims.user_email, user.user_email);
    assert_eq!(claims.sr_discount_type_id, user.sr_discount_type_id);
    assert_eq!(claims.sr_discount, user.sr_discount);
    assert_eq!(claims.password_version, user.password_version);
}

#[test]
fn test_create_access_token() {
    let token = create_access_token(
        1,
        1,
        1,
        1,
        1,
        "test@example.com".to_string(),
        0,
        rate(0.0),
        1,
        "test_secret_key",
        90,
    );

    assert!(token.is_ok());
}

#[test]
fn an_access_token_gives_its_claims_back() {
    let token = issue_access_token(&user(), "access-secret", 90, 1_700_000_000).unwrap();
    let claims = verify_access_token(&token, "access-secret", 1_700_000_100).unwrap();
    assert_same_identity(&claims, &user());
    assert_eq!(claims.iat, 1_700_000_000);
    assert_eq!(claims.exp, 1_700_000_000 + 90 * 60);
    assert!(claims.exp > claims.iat);
}

#[test]
fn a_refresh_token_gives_its_claims_back() {
    let token = issue_refresh_token(&user(), 2, "refresh-secret", 720, 1_700_000_000).unwrap();
    let claims: RefreshTokenClaims =
        verify_refresh_token(&token, "refresh-secret", 1_700_000_000).unwrap();
    assert_eq!(claims.user_id, 7);
    assert_eq!(claims.shop_id, 3);
    assert_eq!(claims.shop_mother_id, 2);
    assert_eq!(claims.role_id, 5);
    assert_eq!(claims.shop_role_id, 11);
    assert_eq!(claims.user_email, "a@b.com");
    assert_eq!(claims.sr_discount_type_id, 4);
    assert_eq!(claims.sr_discount, rate(12.5));
    assert_eq!(claims.password_version, 9);
    assert_eq!(claims.user_type, 2);
    assert_eq!(claims.iat, 1_700_000_000);
    assert_eq!(claims.exp, 1_700_000_000 + 720 * 3600);
}

#[test]
fn extreme_claims_come_back_unchanged() {
    let extreme = AuthUser {
        user_id: i32::MIN,
        shop_id: i32::MAX,
        shop_mother_id: 0,
        role_id: -1,
        shop_role_id: 1,
        user_email: "ü\"\\\n\u{1F600}@ex.com".to_string(),
        sr_discount_type_id: 0,
        sr_discount: rate(0.1),
        password_version: i32::MAX,
    };
    let token = issue_access_token(&extreme, "s", 1, -120).unwrap();
    let claims = verify_access_token(&token, "s", -61).unwrap();
    assert_same_identity(&claims, &extreme);
    assert_eq!(claims.iat, -120);
    assert_eq!(claims.exp, -60);

    let whole = AuthUser { sr_discount: serde_json::Number::from(15), ..extreme };
    let token = issue_access_token(&whole, "s", 1, i64::MAX - 60).unwrap();
    let claims = verify_access_token(&token, "s", i64::MAX).unwrap();
    assert_same_identity(&claims, &whole);
    assert_eq!(claims.exp, i64::MAX);
}

#[test]
fn a_token_is_three_segments_of_sorted_json() {
    let token = issue_access_token(&user(), "access-secret", 90, 1_700_000_000).unwrap();
    assert_eq!(
        payload_of(&token),
        "{\"exp\":1700005400,\"iat\":1700000000,\"password_version\":9,\"role_id\":5,\
         \"shop_id\":3,\"shop_mother_id\":2,\"shop_role_id\":11,\"sr_discount\":12.5,\
         \"sr_discount_type_id\":4,\"user_email\":\"a@b.com\",\"user_id\":7}"
    );
    let token = issue_refresh_token(&user(), 1, "refresh-secret", 1, 0).unwrap();
    assert_eq!(
        payload_of(&token),
        "{\"exp\":3600,\"iat\":0,\"password_version\":9,\"role_id\":5,\"shop_id\":3,\
         \"shop_mother_id\":2,\"shop_role_id\":11,\"sr_discount\":12.5,\
         \"sr_discount_type_id\":4,\"user_email\":\"a@b.com\",\"user_id\":7,\"user_type\":1}"
    );
}

#[test]
fn issuing_is_a_function_of_its_inputs() {
    let first = issue_access_token(&user(), "k", 90, 5).unwrap();
    let second = issue_access_token(&user(), "k", 90, 5).unwrap();
    assert_eq!(first, second);
    assert_ne!(first, issue_access_token(&user(), "k", 90, 6).unwrap());
    assert_ne!(first, issue_access_token(&user(), "other", 90, 5).unwrap());
    assert_ne!(first, issue_access_token(&user(), "k", 91, 5).unwrap());
}

#[test]
fn the_wrong_secret_is_malformed() {
    let token = issue_access_token(&user(), "access-secret", 90, 1_700_000_000).unwrap();
    assert_eq!(
        verify_access_token(&token, "refresh-secret", 1_700_000_000).unwrap_err(),
        TokenError::Malformed
    );
    assert_eq!(
        verify_access_token(&token, "", 1_700_000_000).unwrap_err(),
        TokenError::Malformed
    );
    let token = issue_refresh_token(&user(), 1, "refresh-secret", 720, 1_700_000_000).unwrap();
    assert_eq!(
        verify_refresh_token(&token, "access-secret", 1_700_000_000).unwrap_err(),
        TokenError::Malformed
    );
}

#[test]
fn secrets_that_the_signer_cannot_tell_apart_sign_alike() {
    // HMAC fills a short key with zero bytes, so a key and the same key
    // followed by a zero byte sign every payload to the same token
    let token = issue_access_token(&user(), "k", 90, 0).unwrap();
    assert_eq!(token, issue_access_token(&user(), "k\u{0}", 90, 0).unwrap());
    assert!(verify_access_token(&token, "k\u{0}", 0).is_ok());
}

#[test]
fn a_past_expiry_is_expired() {
    let token = issue_access_token(&user(), "k", 90, 1_700_000_000).unwrap();
    let exp = 1_700_000_000 + 5400;
    assert!(verify_access_token(&token, "k", exp).is_ok());
    assert_eq!(verify_access_token(&token, "k", exp + 1).unwrap_err(), TokenError::Expired);
    assert_eq!(verify_access_token(&token, "k", i64::MAX).unwrap_err(), TokenError::Expired);
    // long past, beyond any allowance for clock skew
    assert_eq!(verify_access_token(&token, "k", exp + 3600).unwrap_err(), TokenError::Expired);
    // the wrong secret is told before the expiry
    assert_eq!(verify_access_token(&token, "j", exp + 1).unwrap_err(), TokenError::Malformed);

    let token = issue_refresh_token(&user(), 1, "r", 1, 0).unwrap();
    assert!(verify_refresh_token(&token, "r", 3600).is_ok());
    assert_eq!(verify_refresh_token(&token, "r", 3601).unwrap_err(), TokenError::Expired);
}

#[test]
fn a_changed_payload_is_malformed() {
    let token = issue_access_token(&user(), "k", 90, 1_700_000_000).unwrap();
    let first_dot = token.find('.').unwrap();
    let second_dot = token.rfind('.').unwrap();
    for at in (first_dot + 1)..second_dot {
        let mut bytes = token.clone().into_bytes();
        bytes[at] = if bytes[at] == b'A' { b'B' } else { b'A' };
        let changed = String::from_utf8(bytes).unwrap();
        assert_eq!(
            verify_access_token(&changed, "k", 1_700_000_000).unwrap_err(),
            TokenError::Malformed
        );
    }
    // a changed signature or header fares no better
    let mut bytes = token.clone().into_bytes();
    let last = bytes.len() - 2;
    bytes[last] = if bytes[last] == b'A' { b'B' } else { b'A' };
    assert_eq!(
        verify_access_token(&String::from_utf8(bytes).unwrap(), "k", 1_700_000_000).unwrap_err(),
        TokenError::Malformed
    );
}

#[test]
fn what_is_no_token_is_malformed() {
    for text in ["", ".", "..", "a.b.c", "not a token", "a.b", "a.b.c.d", "\u{0}"] {
        assert_eq!(verify_access_token(text, "k", 0).unwrap_err(), TokenError::Malformed);
        assert_eq!(verify_refresh_token(text, "k", 0).unwrap_err(), TokenError::Malformed);
    }
}

#[test]
fn access_and_refresh_tokens_do_not_stand_in_for_each_other() {
    // with one secret for both kinds, a refresh token states access claims as well,
    // which is why the two kinds are signed under different secrets
    let access = issue_access_token(&user(), "k", 90, 0).unwrap();
    assert_eq!(verify_refresh_token(&access, "k", 0).unwrap_err(), TokenError::Malformed);
}

fn sign(object: &serde_json::Map<String, serde_json::Value>, secret: &str) -> String {
    jsonwebtoken::encode(
        &jsonwebtoken::Header::default(),
        object,
        &jsonwebtoken::EncodingKey::from_secret(secret.as_bytes()),
    )
    .unwrap()
}

fn full_payload() -> serde_json::Map<String, serde_json::Value> {
    let mut object = serde_json::Map::new();
    object.insert("user_id".to_string(), serde_json::Value::from(1));
    object.insert("shop_id".to_string(), serde_json::Value::from(2));
    object.insert("shop_mother_id".to_string(), serde_json::Value::from(3));
    object.insert("role_id".to_string(), serde_json::Value::from(4));
    object.insert("shop_role_id".to_string(), serde_json::Value::from(5));
    object.insert("user_email".to_string(), serde_json::Value::from("x@y.z"));
    object.insert("sr_discount_type_id".to_string(), serde_json::Value::from(6));
    object.insert("sr_discount".to_string(), serde_json::Value::from(0.5));
    object.insert("password_version".to_string(), serde_json::Value::from(7));
    object.insert("exp".to_string(), serde_json::Value::from(2_000_000_000i64));
    object.insert("iat".to_string(), serde_json::Value::from(1_000_000_000i64));
    object
}

#[test]
fn a_token_signed_elsewhere_is_read() {
    let token = sign(&full_payload(), "k");
    let claims = verify_access_token(&token, "k", 1_500_000_000).unwrap();
    assert_eq!(claims.user_id, 1);
    assert_eq!(claims.shop_id, 2);
    assert_eq!(claims.shop_mother_id, 3);
    assert_eq!(claims.role_id, 4);
    assert_eq!(claims.shop_role_id, 5);
    assert_eq!(claims.user_email, "x@y.z");
    assert_eq!(claims.sr_discount_type_id, 6);
    assert_eq!(claims.sr_discount.as_f64(), Some(0.5));
    assert_eq!(claims.password_version, 7);
    assert_eq!(claims.exp, 2_000_000_000);
    assert_eq!(claims.iat, 1_000_000_000);
    // entries that the claims do not know are passed over
    let mut more = full_payload();
    more.insert("extra".to_string(), serde_json::Value::Bool(true));
    assert!(verify_access_token(&sign(&more, "k"), "k", 0).is_ok());
    // a refresh token needs the kind of user as well
    assert_eq!(
        verify_refresh_token(&token, "k", 0).unwrap_err(),
        TokenError::Malformed
    );
    more.insert("user_type".to_string(), serde_json::Value::from(3));
    assert_eq!(verify_refresh_token(&sign(&more, "k"), "k", 0).unwrap().user_type, 3);
}

#[test]
fn a_payload_that_does_not_state_the_claims_is_malformed() {
    let keys = [
        "user_id",
        "shop_id",
        "shop_mother_id",
        "role_id",
        "shop_role_id",
        "user_email",
        "sr_discount_type_id",
        "sr_discount",
        "password_version",
        "exp",
        "iat",
    ];
    for key in keys {
        let mut object = full_payload();
        object.remove(key);
        assert_eq!(
            verify_access_token(&sign(&object, "k"), "k", 0).unwrap_err(),
            TokenError::Malformed
        );
        let mut object = full_payload();
        object.insert(key.to_string(), serde_json::Value::Null);
        assert_eq!(
            verify_access_token(&sign(&object, "k"), "k", 0).unwrap_err(),
            TokenError::Malformed
        );
    }
    let wrong = |key: &str, value: serde_json::Value| {
        let mut object = full_payload();
        object.insert(key.to_string(), value);
        verify_access_token(&sign(&object, "k"), "k", 0)
    };
    assert_eq!(
        wrong("user_id", serde_json::Value::from(2147483648i64)).unwrap_err(),
        TokenError::Malformed
    );
    assert_eq!(
        wrong("user_id", serde_json::Value::from(1.5)).unwrap_err(),
        TokenError::Malformed
    );
    assert_eq!(
        wrong("user_id", serde_json::Value::from("1")).unwrap_err(),
        TokenError::Malformed
    );
    assert_eq!(
        wrong("user_email", serde_json::Value::from(1)).unwrap_err(),
        TokenError::Malformed
    );
    assert_eq!(
        wrong("sr_discount", serde_json::Value::from("0.5")).unwrap_err(),
        TokenError::Malformed
    );
    assert_eq!(
        wrong("exp", serde_json::Value::from(u64::MAX)).unwrap_err(),
        TokenError::Malformed
    );
    assert!(wrong("sr_discount", serde_json::Value::from(3)).is_ok());
    // an expiry before the epoch is an expiry like any other
    assert_eq!(wrong("exp", serde_json::Value::from(-5)).unwrap_err(), TokenError::Expired);
    assert!(verify_access_token(
        &sign(
            &{
                let mut object = full_payload();
                object.insert("exp".to_string(), serde_json::Value::from(-5));
                object
            },
            "k"
        ),
        "k",
        -5
    )
    .is_ok());
    // a token that names an audience is refused
    assert_eq!(
        wrong("aud", serde_json::Value::from("someone")).unwrap_err(),
        TokenError::Malformed
    );
}

#[test]
fn a_token_signed_in_another_way_is_malformed() {
    let mut header = jsonwebtoken::Header::default();
    header.alg = jsonwebtoken::Algorithm::HS512;
    let token = jsonwebtoken::encode(
        &header,
        &full_payload(),
        &jsonwebtoken::EncodingKey::from_secret(b"k"),
    )
    .unwrap();
    assert_eq!(verify_access_token(&token, "k", 0).unwrap_err(), TokenError::Malformed);
}

#[test]
fn a_lifetime_must_be_positive_and_end_within_reach() {
    assert!(matches!(issue_access_token(&user(), "k", 0, 0), Err(IssueError::Lifetime)));
    assert!(matches!(issue_access_token(&user(), "k", -1, 0), Err(IssueError::Lifetime)));
    assert!(matches!(issue_access_token(&user(), "k", i64::MAX, 0), Err(IssueError::Lifetime)));
    assert!(matches!(
        issue_access_token(&user(), "k", 1, i64::MAX - 59),
        Err(IssueError::Lifetime)
    ));
    assert!(issue_access_token(&user(), "k", 1, i64::MAX - 60).is_ok());
    // a lifetime too long for an i64 of seconds may still end within reach
    assert!(issue_access_token(&user(), "k", i64::MAX / 60 + 1, i64::MIN).is_ok());
    assert!(matches!(issue_refresh_token(&user(), 1, "k", 0, 0), Err(IssueError::Lifetime)));
    assert!(matches!(
        issue_refresh_token(&user(), 1, "k", 1, i64::MAX - 3599),
        Err(IssueError::Lifetime)
    ));
    assert!(issue_refresh_token(&user(), 1, "k", 1, i64::MAX - 3600).is_ok());
    assert!(matches!(
        create_access_token(1, 1, 1, 1, 1, "e".to_string(), 0, rate(0.0), 1, "k", 0),
        Err(IssueError::Lifetime)
    ));
    assert!(matches!(
        create_refresh_token(1, 1, 1, 1, 1, "e".to_string(), 0, rate(0.0), 1, 1, "k", -3),
        Err(IssueError::Lifetime)
    ));
}

#[test]
fn tokens_created_now_verify_now() {
    let now = chrono::Utc::now().timestamp();
    let token = create_access_token(
        1,
        2,
        3,
        4,
        5,
        "e@x.y".to_string(),
        6,
        rate(0.25),
        7,
        "k",
        DEFAULT_ACCESS_TTL_MINUTES,
    )
    .unwrap();
    let claims = verify_access_token(&token, "k", now).unwrap();
    assert!(now <= claims.iat && claims.iat <= now + 5);
    assert_eq!(claims.exp, claims.iat + 90 * 60);
    assert_eq!(claims.user_email, "e@x.y");

    let token = create_refresh_token(
        1,
        2,
        3,
        4,
        5,
        "e@x.y".to_string(),
        6,
        rate(0.25),
        7,
        8,
        "r",
        DEFAULT_REFRESH_TTL_HOURS,
    )
    .unwrap();
    let claims = verify_refresh_token(&token, "r", now).unwrap();
    assert_eq!(claims.exp, claims.iat + 720 * 3600);
    assert_eq!(claims.user_type, 8);
}

#[test]
fn claims_turn_into_the_identity() {
    let claims = AccessTokenClaims::new(user(), 10, 5);
    assert_eq!(claims.exp, 10);
    assert_eq!(claims.iat, 5);
    assert_same_identity(&claims, &user());
    let copy = claims.identity();
    assert_eq!(copy.user_email, "a@b.com");
    let who = claims.into_auth_user();
    assert_eq!(who.user_id, 7);
    assert_eq!(who.shop_id, 3);
    assert_eq!(who.shop_mother_id, 2);
    assert_eq!(who.role_id, 5);
    assert_eq!(who.shop_role_id, 11);
    assert_eq!(who.user_email, "a@b.com");
    assert_eq!(who.sr_discount_type_id, 4);
    assert_eq!(who.sr_discount, rate(12.5));
    assert_eq!(who.password_version, 9);
    let refresh = RefreshTokenClaims::new(user(), 3, 10, 5);
    assert_eq!(refresh.user_type, 3);
    assert_eq!(refresh.identity().user_id, 7);
}

#[test]
fn payloads_are_written_and_read() {
    let claims = AccessTokenClaims::new(user(), 10, 5);
    let object = claims.to_payload();
    assert_eq!(object.len(), 11);
    assert_eq!(object.get("user_id"), Some(&serde_json::Value::from(7)));
    assert_eq!(object.get("user_email"), Some(&serde_json::Value::from("a@b.com")));
    assert_eq!(object.get("sr_discount"), Some(&serde_json::Value::from(12.5)));
    assert_eq!(object.get("exp"), Some(&serde_json::Value::from(10)));
    let back = AccessTokenClaims::from_payload(&object).unwrap();
    assert_same_identity(&back, &user());
    assert!(RefreshTokenClaims::from_payload(&object).is_none());
    let refresh = RefreshTokenClaims::new(user(), 3, 10, 5).to_payload();
    assert_eq!(refresh.len(), 12);
    assert_eq!(RefreshTokenClaims::from_payload(&refresh).unwrap().user_type, 3);
    assert!(AccessTokenClaims::from_payload(&serde_json::Map::new()).is_none());
}

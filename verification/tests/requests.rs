use clinic_api::models::User;
use clinic_api::models::UserWithShop;
use clinic_api::notify::basic_authorization;
use clinic_api::notify::otp_message;
use clinic_api::notify::password_reset_email;
use clinic_api::notify::sms_accepted;
use clinic_api::notify::sms_request;
use clinic_api::notify::welcome_email;
use clinic_api::notify::SMS_ENDPOINT;
use clinic_api::orders::order_code;
use clinic_api::orders::search_orders_query;
use clinic_api::response::ApiResponse;
use clinic_api::response::PaginatedResponse;
use clinic_api::response::PaginationRequest;
use clinic_api::server::listen_address;
use clinic_api::structs::ChangePasswordRequest;
use clinic_api::structs::ForgotPasswordRequest;
use clinic_api::structs::LoginRequest;
use clinic_api::structs::OrderSearchRequest;
use clinic_api::structs::RegisterRequest;
use clinic_api::structs::ResetPasswordRequest;
use clinic_api::structs::UserResponse;
use clinic_api::validation::validation_text;
use clinic_api::validation::FieldError;

fn complaints(errors: &[FieldError]) -> Vec<(&'static str, &'static str)> {
    errors.iter().map(|error| (error.field, error.message)).collect()
}

// ---- envelope and paging ----

#[test]
fn envelopes_carry_the_parts_of_their_outcome() {
    let plain = ApiResponse::success(5);
    assert!(plain.status);
    assert_eq!(plain.data, Some(5));
    assert_eq!(plain.message, None);
    assert_eq!(plain.error, None);

    let told = ApiResponse::success_with_message((), "Logged out successfully".to_string());
    assert!(told.status);
    assert_eq!(told.data, Some(()));
    assert_eq!(told.message, Some("Logged out successfully".to_string()));
    assert_eq!(told.error, None);

    let failed: ApiResponse<i32> = ApiResponse::error("User not found".to_string());
    assert!(!failed.status);
    assert_eq!(failed.data, None);
    assert_eq!(failed.message, None);
    assert_eq!(failed.error, Some("User not found".to_string()));
}

fn sent(response: ApiResponse<serde_json::Value>) -> String {
    serde_json::to_string(&response.to_json()).unwrap()
}

#[test]
fn parts_that_an_envelope_does_not_hold_are_left_out() {
    assert_eq!(
        sent(ApiResponse::success(serde_json::Value::from(5))),
        "{\"data\":5,\"status\":true}"
    );
    assert_eq!(
        sent(ApiResponse::success_with_message(serde_json::Value::Null, "ok".to_string())),
        "{\"data\":null,\"message\":\"ok\",\"status\":true}"
    );
    assert_eq!(
        sent(ApiResponse::error("Invalid username or password".to_string())),
        "{\"error\":\"Invalid username or password\",\"status\":false}"
    );
    let bare = ApiResponse { status: true, data: None, message: None, error: None };
    assert_eq!(sent(bare), "{\"status\":true}");
    let full = ApiResponse {
        status: false,
        data: Some(serde_json::Value::from("d")),
        message: Some("m".to_string()),
        error: Some("e".to_string()),
    };
    let object = full.to_json();
    assert_eq!(object.len(), 4);
    assert_eq!(object.get("status"), Some(&serde_json::Value::Bool(false)));
    assert_eq!(object.get("data"), Some(&serde_json::Value::from("d")));
    assert_eq!(object.get("message"), Some(&serde_json::Value::from("m")));
    assert_eq!(object.get("error"), Some(&serde_json::Value::from("e")));
}

#[test]
fn pages_have_an_offset_and_a_limit() {
    let first = PaginationRequest::default();
    assert_eq!(first.page, Some(1));
    assert_eq!(first.limit, Some(20));
    assert_eq!(first.offset(), 0);
    assert_eq!(first.limit(), 20);

    let none = PaginationRequest { page: None, limit: None };
    assert_eq!(none.offset(), 0);
    assert_eq!(none.limit(), 20);

    let third = PaginationRequest { page: Some(3), limit: Some(25) };
    assert_eq!(third.offset(), 50);
    assert_eq!(third.limit(), 25);
    assert_eq!(third.checked_offset(), Some(50));

    let before = PaginationRequest { page: Some(0), limit: None };
    assert_eq!(before.offset(), -20);
    let zero = PaginationRequest { page: Some(i64::MIN), limit: Some(0) };
    assert_eq!(zero.checked_offset(), Some(0));
    let far = PaginationRequest { page: Some(i64::MAX), limit: Some(2) };
    assert_eq!(far.checked_offset(), None);
    let low = PaginationRequest { page: Some(i64::MIN), limit: Some(1) };
    assert_eq!(low.checked_offset(), None);
    let edge = PaginationRequest { page: Some(i64::MAX), limit: Some(1) };
    assert_eq!(edge.checked_offset(), Some(i64::MAX - 1));
}

#[test]
fn the_number_of_pages_is_rounded_up() {
    let pages = |total: i64, limit: i64| PaginatedResponse::new(vec![0u8], 1, limit, total);
    assert_eq!(pages(0, 20).total_pages, 0);
    assert_eq!(pages(1, 20).total_pages, 1);
    assert_eq!(pages(20, 20).total_pages, 1);
    assert_eq!(pages(21, 20).total_pages, 2);
    assert_eq!(pages(100, 7).total_pages, 15);
    assert_eq!(pages(-1, 20).total_pages, 0);
    assert_eq!(pages(-20, 20).total_pages, -1);
    assert_eq!(pages(-21, 20).total_pages, -1);
    assert_eq!(pages(21, -20).total_pages, -1);
    assert_eq!(pages(-21, -20).total_pages, 2);
    assert_eq!(pages(5, 0).total_pages, i64::MAX);
    assert_eq!(pages(-5, 0).total_pages, i64::MIN);
    assert_eq!(pages(0, 0).total_pages, 0);
    assert_eq!(pages(i64::MIN, -1).total_pages, i64::MAX);
    assert_eq!(pages(i64::MAX, 1).total_pages, i64::MAX);
    assert_eq!(pages(i64::MIN, 1).total_pages, i64::MIN);
    // the same as rounding the quotient of the two numbers up
    for (total, limit) in [(0i64, 3i64), (1, 3), (3, 3), (10, 3), (-10, 3), (10, -3), (999, 10)] {
        let expected = (total as f64 / limit as f64).ceil() as i64;
        assert_eq!(pages(total, limit).total_pages, expected);
    }
    let response = PaginatedResponse::new(vec!["a", "b"], 2, 10, 12);
    assert_eq!(response.data, vec!["a", "b"]);
    assert_eq!(response.page, 2);
    assert_eq!(response.limit, 10);
    assert_eq!(response.total, 12);
    assert_eq!(response.total_pages, 2);
}

// ---- validation ----

#[test]
fn a_login_is_checked_field_by_field() {
    let valid = LoginRequest {
        username: "a@b.com".to_string(),
        password: "secret1".to_string(),
        otp_code: None,
    };
    assert!(valid.validate().is_empty());
    let invalid = LoginRequest {
        username: "a.b.com".to_string(),
        password: "short".to_string(),
        otp_code: None,
    };
    assert_eq!(
        complaints(&invalid.validate()),
        vec![
            ("username", "Invalid email format"),
            ("password", "Password must be at least 6 characters")
        ]
    );
    assert_eq!(
        validation_text(&invalid.validate()),
        "username: Invalid email format\npassword: Password must be at least 6 characters"
    );
    assert_eq!(validation_text(&valid.validate()), "");
    assert_eq!(
        validation_text(&[FieldError { field: "f", message: "m" }].to_vec()),
        "f: m"
    );
}

#[test]
fn e_mail_addresses_are_judged_as_forms_judge_them() {
    let judge = |address: &str| {
        ForgotPasswordRequest { email: address.to_string() }.validate().is_empty()
    };
    assert!(judge("email@here.com"));
    assert!(judge("weirder-email@here.and.there.com"));
    assert!(judge("email@[127.0.0.1]"));
    assert!(judge("a@b"));
    assert!(!judge(""));
    assert!(!judge("abc"));
    assert!(!judge("abc@"));
    assert!(!judge("a @x.cz"));
    assert!(!judge("abc@.com"));
    assert!(!judge("something@@somewhere.com"));
    assert_eq!(
        complaints(&ForgotPasswordRequest { email: "x".to_string() }.validate()),
        vec![("email", "Invalid email format")]
    );
}

#[test]
fn a_registration_is_checked_field_by_field() {
    let valid = RegisterRequest {
        email: "a@b.com".to_string(),
        password: "secret1".to_string(),
        fname: "A".to_string(),
        lname: "B".to_string(),
        tel: "0812345678".to_string(),
    };
    assert!(valid.validate().is_empty());
    let invalid = RegisterRequest {
        email: "a".to_string(),
        password: "12345".to_string(),
        fname: String::new(),
        lname: String::new(),
        tel: "081234567".to_string(),
    };
    assert_eq!(
        complaints(&invalid.validate()),
        vec![
            ("email", "Invalid email format"),
            ("password", "Password must be at least 6 characters"),
            ("fname", "First name is required"),
            ("lname", "Last name is required"),
            ("tel", "Phone number must be 10 digits"),
        ]
    );
    let long = RegisterRequest { tel: "08123456789".to_string(), ..valid.clone() };
    assert_eq!(complaints(&long.validate()), vec![("tel", "Phone number must be 10 digits")]);
    let only_name = RegisterRequest { lname: String::new(), ..valid };
    assert_eq!(complaints(&only_name.validate()), vec![("lname", "Last name is required")]);
}

#[test]
fn new_passwords_have_six_characters() {
    let change = |new_password: &str| ChangePasswordRequest {
        old_password: "x".to_string(),
        new_password: new_password.to_string(),
    };
    assert!(change("123456").validate().is_empty());
    assert_eq!(
        complaints(&change("12345").validate()),
        vec![("new_password", "New password must be at least 6 characters")]
    );
    let reset = |new_password: &str| ResetPasswordRequest {
        token: "t".to_string(),
        new_password: new_password.to_string(),
    };
    assert!(reset("123456").validate().is_empty());
    assert_eq!(
        complaints(&reset("").validate()),
        vec![("new_password", "Password must be at least 6 characters")]
    );
}

// ---- users ----

fn member(id: i32, name: &str) -> UserWithShop {
    UserWithShop {
        id,
        user_email: format!("{}@x.y", name),
        user_fname: name.to_string(),
        user_lname: "L".to_string(),
        user_tel: "0".to_string(),
        shop_id: 9,
        shop_name: "Shop".to_string(),
        shop_role_id: 1,
        shop_role_name: "Owner".to_string(),
        role_id: 2,
    }
}

#[test]
fn users_are_shown_without_their_role() {
    let shown = UserResponse::of_user(member(1, "ann"));
    assert_eq!(shown.id, 1);
    assert_eq!(shown.email, "ann@x.y");
    assert_eq!(shown.fname, "ann");
    assert_eq!(shown.lname, "L");
    assert_eq!(shown.tel, "0");
    assert_eq!(shown.shop_id, 9);
    assert_eq!(shown.shop_name, "Shop");

    let all = UserResponse::of_users(vec![member(1, "ann"), member(2, "bob"), member(3, "cy")]);
    assert_eq!(all.len(), 3);
    assert_eq!(all[0].fname, "ann");
    assert_eq!(all[1].fname, "bob");
    assert_eq!(all[2].id, 3);
    assert!(UserResponse::of_users(Vec::new()).is_empty());
}

#[test]
fn a_user_is_active_and_enrolled_or_not() {
    let mut user = User {
        id: 1,
        user_email: "test@example.com".to_string(),
        user_password: "hashed_password".to_string(),
        user_fname: "John".to_string(),
        user_lname: "Doe".to_string(),
        user_tel: "0812345678".to_string(),
        user_is_active: 1,
        user_otp_url: None,
        password_version: 1,
        created_at: None,
        updated_at: None,
    };
    assert!(user.is_active());
    assert!(!user.has_otp());
    user.user_is_active = 0;
    assert!(!user.is_active());
    user.user_is_active = -1;
    assert!(user.is_active());
    user.user_otp_url = Some(String::new());
    assert!(!user.has_otp());
    user.user_otp_url = Some("x".to_string());
    assert!(user.has_otp());
}

// ---- orders ----

#[test]
fn order_codes_name_shop_and_time() {
    assert_eq!(order_code(12, 1700000000), "ORD-12-1700000000");
    assert_eq!(order_code(-3, -4), "ORD--3--4");
    assert_eq!(order_code(0, 0), "ORD-0-0");
    assert_eq!(order_code(i32::MAX, i64::MIN), "ORD-2147483647--9223372036854775808");
}

#[test]
fn the_search_has_one_question_mark_for_each_value() {
    let query = search_orders_query(4, None, None, 20, 0);
    assert_eq!(
        query.text,
        "SELECT * FROM orders WHERE shop_id = ? ORDER BY created_at DESC LIMIT ? OFFSET ?"
    );
    assert_eq!(query.values, vec![4, 20, 0]);

    let query = search_orders_query(4, Some(7), None, 20, 40);
    assert_eq!(
        query.text,
        "SELECT * FROM orders WHERE shop_id = ? AND customer_id = ? \
         ORDER BY created_at DESC LIMIT ? OFFSET ?"
    );
    assert_eq!(query.values, vec![4, 7, 20, 40]);

    let query = search_orders_query(4, None, Some(2), 20, 40);
    assert_eq!(
        query.text,
        "SELECT * FROM orders WHERE shop_id = ? AND order_status = ? \
         ORDER BY created_at DESC LIMIT ? OFFSET ?"
    );
    assert_eq!(query.values, vec![4, 2, 20, 40]);

    let query = search_orders_query(4, Some(7), Some(-1), 5, 10);
    assert_eq!(
        query.text,
        "SELECT * FROM orders WHERE shop_id = ? AND customer_id = ? AND order_status = ? \
         ORDER BY created_at DESC LIMIT ? OFFSET ?"
    );
    assert_eq!(query.values, vec![4, 7, -1, 5, 10]);
    assert_eq!(query.text.matches('?').count(), query.values.len());

    let search = OrderSearchRequest { customer_id: None, status: None, page: Some(2), limit: None };
    let page = search.pagination();
    assert_eq!(page.offset(), 20);
    assert_eq!(page.limit(), 20);
}

// ---- what is sent ----

#[test]
fn the_reset_e_mail_carries_the_link() {
    let email = password_reset_email("u@x.y", "http://localhost:8002", "tok");
    assert_eq!(email.to, "u@x.y");
    assert_eq!(email.subject, "Password Reset Request");
    assert!(email
        .html_body
        .contains("<p><a href=\"http://localhost:8002/auth/reset-password?token=tok\">Reset Password</a></p>"));
    assert!(email.html_body.starts_with("\n        <html>\n        <body>\n"));
    assert!(email.html_body.ends_with("        </html>\n        "));
    assert!(email.html_body.contains("<p>This link will expire in 1 hour.</p>"));
}

#[test]
fn the_welcome_e_mail_names_the_user() {
    let email = welcome_email("u@x.y", "Ada");
    assert_eq!(email.to, "u@x.y");
    assert_eq!(email.subject, "Welcome to APSTH Clinic");
    assert!(email.html_body.contains("<h2>Welcome to APSTH Clinic!</h2>"));
    assert!(email.html_body.contains("            <p>Dear Ada,</p>\n"));
    assert!(email.html_body.contains("<p>APSTH Team</p>"));
}

#[test]
fn short_messages_are_handed_to_the_gateway() {
    let request = sms_request("0812345678", "hello", None);
    assert_eq!(request.msisdn, "0812345678");
    assert_eq!(request.message, "hello");
    assert_eq!(request.sender, "APSTH");
    assert_eq!(request.force, "corporate");
    assert_eq!(sms_request("1", "m", Some("TEST".to_string())).sender, "TEST");
    assert_eq!(otp_message("123456"), "Your OTP code is: 123456. Valid for 5 minutes.");
    assert_eq!(basic_authorization("test_key", "test_secret"), "Basic dGVzdF9rZXk6dGVzdF9zZWNyZXQ=");
    assert_eq!(basic_authorization("", ""), "Basic Og==");
    assert_eq!(SMS_ENDPOINT, "https://portal-otp.smsmkt.com/api/send-message");
    assert!(sms_accepted(200));
    assert!(sms_accepted(299));
    assert!(!sms_accepted(199));
    assert!(!sms_accepted(300));
    assert!(!sms_accepted(500));
}

// ---- server ----

#[test]
fn the_server_listens_on_every_interface() {
    assert_eq!(listen_address(None), "0.0.0.0:8002");
    assert_eq!(listen_address(Some(":9000")), "0.0.0.0:9000");
    assert_eq!(listen_address(Some("9000")), "0.0.0.0:9000");
    assert_eq!(listen_address(Some("::9000")), "0.0.0.0:9000");
    assert_eq!(listen_address(Some(":")), "0.0.0.0:");
    assert_eq!(listen_address(Some("")), "0.0.0.0:");
    assert_eq!(listen_address(Some("90:00")), "0.0.0.0:90:00");
}

//! What is sent to users: the texts of the e-mails and of the short
//! messages, and the request that hands a short message to the gateway.
//!
//! Sending is the caller's business. The texts and the headers are made
//! here.

use vstd::prelude::*;

verus! {

/// The subject of the e-mail with the reset link.
pub const RESET_SUBJECT: &'static str = "Password Reset Request";

/// The subject of the e-mail that welcomes a new user.
pub const WELCOME_SUBJECT: &'static str = "Welcome to APSTH Clinic";

/// The page of the e-mail with the reset link, up to the link.
pub const RESET_BODY_HEAD: &'static str = "\n        <html>\n        <body>\n            <h2>Reset Your Password</h2>\n            <p>You have requested to reset your password. Click the link below to proceed:</p>\n            <p><a href=\"";

/// The page of the e-mail with the reset link, from the link on.
pub const RESET_BODY_TAIL: &'static str = "\">Reset Password</a></p>\n            <p>This link will expire in 1 hour.</p>\n            <p>If you did not request this, please ignore this email.</p>\n        </body>\n        </html>\n        ";

/// The page of the e-mail that welcomes a new user, up to the name.
pub const WELCOME_BODY_HEAD: &'static str = "\n        <html>\n        <body>\n            <h2>Welcome to APSTH Clinic!</h2>\n            <p>Dear ";

/// The page of the e-mail that welcomes a new user, from the name on.
pub const WELCOME_BODY_TAIL: &'static str = ",</p>\n            <p>Thank you for registering with us. We're excited to have you on board!</p>\n            <p>If you have any questions, feel free to contact our support team.</p>\n            <br>\n            <p>Best regards,</p>\n            <p>APSTH Team</p>\n        </body>\n        </html>\n        ";

/// The address of the gateway for short messages.
pub const SMS_ENDPOINT: &'static str = "https://portal-otp.smsmkt.com/api/send-message";

/// The sender of short messages where none is configured.
pub const DEFAULT_SMS_SENDER: &'static str = "APSTH";

/// An e-mail with a page as its body, ready to be sent.
#[derive(Debug, Clone)]
pub struct HtmlEmail {
    pub to: String,
    pub subject: String,
    pub html_body: String,
}

/// The link that resets a password: the base URL, the path of the reset
/// page and the token.
pub open spec fn reset_link(base_url: Seq<char>, reset_token: Seq<char>) -> Seq<char> {
    base_url + "/auth/reset-password?token="@ + reset_token
}

/// The e-mail that carries the reset link to `to`.
pub fn password_reset_email(to: &str, base_url: &str, reset_token: &str) -> (email: HtmlEmail)
    ensures
        email.to@ == to@,
        email.subject@ == RESET_SUBJECT@,
        email.html_body@ == RESET_BODY_HEAD@ + reset_link(base_url@, reset_token@)
            + RESET_BODY_TAIL@,
{
    let mut link = String::from_str(base_url);
    link.append("/auth/reset-password?token=");
    link.append(reset_token);
    let mut html_body = String::from_str(RESET_BODY_HEAD);
    html_body.append(link.as_str());
    html_body.append(RESET_BODY_TAIL);
    HtmlEmail { to: String::from_str(to), subject: String::from_str(RESET_SUBJECT), html_body }
}

/// The e-mail that welcomes `name` at `to`.
pub fn welcome_email(to: &str, name: &str) -> (email: HtmlEmail)
    ensures
        email.to@ == to@,
        email.subject@ == WELCOME_SUBJECT@,
        email.html_body@ == WELCOME_BODY_HEAD@ + name@ + WELCOME_BODY_TAIL@,
{
    let mut html_body = String::from_str(WELCOME_BODY_HEAD);
    html_body.append(name);
    html_body.append(WELCOME_BODY_TAIL);
    HtmlEmail { to: String::from_str(to), subject: String::from_str(WELCOME_SUBJECT), html_body }
}

/// What the gateway is asked to send.
#[derive(Debug, Clone)]
pub struct SmsRequest {
    /// The telephone number of the receiver.
    pub msisdn: String,
    pub message: String,
    pub sender: String,
    /// The class of the message: always `corporate`.
    pub force: String,
}

/// The request that sends `message` to `phone`. Where no sender is
/// configured, the sender is `APSTH`.
pub fn sms_request(phone: &str, message: &str, sender: Option<String>) -> (request: SmsRequest)
    ensures
        request.msisdn@ == phone@,
        request.message@ == message@,
        request.sender@ == match sender {
            Some(name) => name@,
            None => DEFAULT_SMS_SENDER@,
        },
        request.force@ == "corporate"@,
{
    let sender = match sender {
        Some(name) => name,
        None => String::from_str(DEFAULT_SMS_SENDER),
    };
    SmsRequest {
        msisdn: String::from_str(phone),
        message: String::from_str(message),
        sender,
        force: String::from_str("corporate"),
    }
}

/// The short message that carries a one-time code.
pub fn otp_message(otp_code: &str) -> (message: String)
    ensures
        message@ == "Your OTP code is: "@ + otp_code@ + ". Valid for 5 minutes."@,
{
    let mut message = String::from_str("Your OTP code is: ");
    message.append(otp_code);
    message.append(". Valid for 5 minutes.");
    message
}

/// The standard base64 text, with padding, of the UTF-8 bytes of a text.
pub uninterp spec fn base64_of(text: Seq<char>) -> Seq<char>;

/// `base64::encode`: the standard base64 text of the bytes of `text`.
#[verifier::external_body]
fn base64_encode(text: &str) -> (encoded: String)
    ensures
        encoded@ == base64_of(text@),
{
    #[allow(deprecated)]
    base64::encode(text)
}

/// The `Authorization` header that names the account at the gateway:
/// `Basic `, then the base64 text of key, colon and secret.
pub fn basic_authorization(api_key: &str, api_secret: &str) -> (header: String)
    ensures
        header@ == "Basic "@ + base64_of(api_key@ + ":"@ + api_secret@),
{
    let mut account = String::from_str(api_key);
    account.append(":");
    account.append(api_secret);
    let mut header = String::from_str("Basic ");
    let encoded = base64_encode(account.as_str());
    header.append(encoded.as_str());
    header
}

/// Whether the gateway took the message: a status from 200 to 299.
pub fn sms_accepted(status: u16) -> (accepted: bool)
    ensures
        accepted == (200 <= status <= 299),
{
    200 <= status && status <= 299
}

} // verus!

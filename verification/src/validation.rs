//! The rules that a request's fields must meet before it is acted on.
//!
//! Whether a text is an e-mail address is `validator`'s judgement; the
//! lengths, the fields that each request checks and the words of each
//! complaint are fixed here. Lengths count characters, not bytes.

use crate::structs::ChangePasswordRequest;
use crate::structs::ForgotPasswordRequest;
use crate::structs::LoginRequest;
use crate::structs::RegisterRequest;
use crate::structs::ResetPasswordRequest;
use vstd::prelude::*;

verus! {

/// What `validator::validate_email` says of a text.
pub uninterp spec fn email_is_valid(text: Seq<char>) -> bool;

/// `validator::validate_email`: whether the text is an e-mail address as
/// HTML forms understand one.
#[verifier::external_body]
pub(crate) fn is_email(text: &str) -> (valid: bool)
    ensures
        valid == email_is_valid(text@),
{
    validator::validate_email(text)
}

/// A field that does not meet its rule, and the complaint.
#[derive(Debug, Clone, Copy)]
pub struct FieldError {
    pub field: &'static str,
    pub message: &'static str,
}

/// A complaint as two texts: the field's name and the message.
pub type Complaint = (Seq<char>, Seq<char>);

impl View for FieldError {
    type V = Complaint;

    open spec fn view(&self) -> Complaint {
        (self.field@, self.message@)
    }
}

/// The complaints that a list of field errors states, in its order.
pub open spec fn complaints(errors: Seq<FieldError>) -> Seq<Complaint> {
    Seq::new(errors.len(), |i: int| errors[i]@)
}

/// `before`, and one complaint more where the rule does not hold.
pub open spec fn noted(before: Seq<Complaint>, holds: bool, field: Seq<char>, message: Seq<char>) -> Seq<
    Complaint,
> {
    if holds {
        before
    } else {
        before.push((field, message))
    }
}

/// Notes a complaint where the rule does not hold.
fn note(errors: &mut Vec<FieldError>, holds: bool, field: &'static str, message: &'static str)
    ensures
        complaints(final(errors)@) == noted(complaints(old(errors)@), holds, field@, message@),
{
    if !holds {
        errors.push(FieldError { field, message });
        assert(complaints(errors@) =~= complaints(old(errors)@).push((field@, message@)));
    }
}

/// What a login must meet: the user name is an e-mail address, the password
/// has six characters or more.
pub open spec fn login_complaints(username: Seq<char>, password: Seq<char>) -> Seq<Complaint> {
    noted(
        noted(Seq::empty(), email_is_valid(username), "username"@, "Invalid email format"@),
        password.len() >= 6,
        "password"@,
        "Password must be at least 6 characters"@,
    )
}

/// What a registration must meet: an e-mail address, a password of six
/// characters or more, names that are not empty, a telephone number of
/// exactly ten characters.
pub open spec fn register_complaints(
    email: Seq<char>,
    password: Seq<char>,
    fname: Seq<char>,
    lname: Seq<char>,
    tel: Seq<char>,
) -> Seq<Complaint> {
    noted(
        noted(
            noted(
                noted(
                    noted(Seq::empty(), email_is_valid(email), "email"@, "Invalid email format"@),
                    password.len() >= 6,
                    "password"@,
                    "Password must be at least 6 characters"@,
                ),
                fname.len() >= 1,
                "fname"@,
                "First name is required"@,
            ),
            lname.len() >= 1,
            "lname"@,
            "Last name is required"@,
        ),
        tel.len() == 10,
        "tel"@,
        "Phone number must be 10 digits"@,
    )
}

/// What a new password must meet: six characters or more.
pub open spec fn new_password_complaints(new_password: Seq<char>, message: Seq<char>) -> Seq<
    Complaint,
> {
    noted(Seq::empty(), new_password.len() >= 6, "new_password"@, message)
}

/// What a request for a reset link must meet: an e-mail address.
pub open spec fn forgot_password_complaints(email: Seq<char>) -> Seq<Complaint> {
    noted(Seq::empty(), email_is_valid(email), "email"@, "Invalid email format"@)
}

impl LoginRequest {
    /// The fields that do not meet their rules, in the order of the fields;
    /// none where the request is valid.
    pub fn validate(&self) -> (errors: Vec<FieldError>)
        ensures
            complaints(errors@) == login_complaints(self.username@, self.password@),
    {
        let mut errors: Vec<FieldError> = Vec::new();
        assert(complaints(errors@) =~= Seq::empty());
        note(&mut errors, is_email(self.username.as_str()), "username", "Invalid email format");
        note(
            &mut errors,
            self.password.as_str().unicode_len() >= 6,
            "password",
            "Password must be at least 6 characters",
        );
        errors
    }
}

impl RegisterRequest {
    /// The fields that do not meet their rules, in the order of the fields;
    /// none where the request is valid.
    pub fn validate(&self) -> (errors: Vec<FieldError>)
        ensures
            complaints(errors@) == register_complaints(
                self.email@,
                self.password@,
                self.fname@,
                self.lname@,
                self.tel@,
            ),
    {
        let mut errors: Vec<FieldError> = Vec::new();
        assert(complaints(errors@) =~= Seq::empty());
        note(&mut errors, is_email(self.email.as_str()), "email", "Invalid email format");
        note(
            &mut errors,
            self.password.as_str().unicode_len() >= 6,
            "password",
            "Password must be at least 6 characters",
        );
        note(
            &mut errors,
            self.fname.as_str().unicode_len() >= 1,
            "fname",
            "First name is required",
        );
        note(&mut errors, self.lname.as_str().unicode_len() >= 1, "lname", "Last name is required");
        note(
            &mut errors,
            self.tel.as_str().unicode_len() == 10,
            "tel",
            "Phone number must be 10 digits",
        );
        errors
    }
}

impl ChangePasswordRequest {
    /// The fields that do not meet their rules; none where the request is
    /// valid.
    pub fn validate(&self) -> (errors: Vec<FieldError>)
        ensures
            complaints(errors@) == new_password_complaints(
                self.new_password@,
                "New password must be at least 6 characters"@,
            ),
    {
        let mut errors: Vec<FieldError> = Vec::new();
        assert(complaints(errors@) =~= Seq::empty());
        note(
            &mut errors,
            self.new_password.as_str().unicode_len() >= 6,
            "new_password",
            "New password must be at least 6 characters",
        );
        errors
    }
}

impl ForgotPasswordRequest {
    /// The fields that do not meet their rules; none where the request is
    /// valid.
    pub fn validate(&self) -> (errors: Vec<FieldError>)
        ensures
            complaints(errors@) == forgot_password_complaints(self.email@),
    {
        let mut errors: Vec<FieldError> = Vec::new();
        assert(complaints(errors@) =~= Seq::empty());
        note(&mut errors, is_email(self.email.as_str()), "email", "Invalid email format");
        errors
    }
}

impl ResetPasswordRequest {
    /// The fields that do not meet their rules; none where the request is
    /// valid.
    pub fn validate(&self) -> (errors: Vec<FieldError>)
        ensures
            complaints(errors@) == new_password_complaints(
                self.new_password@,
                "Password must be at least 6 characters"@,
            ),
    {
        let mut errors: Vec<FieldError> = Vec::new();
        assert(complaints(errors@) =~= Seq::empty());
        note(
            &mut errors,
            self.new_password.as_str().unicode_len() >= 6,
            "new_password",
            "Password must be at least 6 characters",
        );
        errors
    }
}

/// The text of a list of complaints: for each one the field, a colon, a
/// space and the message; a line break between two of them.
pub open spec fn complaints_text(complaints: Seq<Complaint>) -> Seq<char>
    decreases complaints.len(),
{
    if complaints.len() == 0 {
        Seq::empty()
    } else if complaints.len() == 1 {
        complaints[0].0 + ": "@ + complaints[0].1
    } else {
        complaints_text(complaints.drop_last()) + "\n"@ + complaints.last().0 + ": "@
            + complaints.last().1
    }
}

/// The text of a list of field errors.
pub fn validation_text(errors: &Vec<FieldError>) -> (text: String)
    ensures
        text@ == complaints_text(complaints(errors@)),
{
    let mut text = String::new();
    let mut done: usize = 0;
    while done < errors.len()
        invariant
            done <= errors.len(),
            text@ == complaints_text(complaints(errors@).take(done as int)),
        decreases errors.len() - done,
    {
        let ghost so_far = complaints(errors@).take(done as int);
        let ghost next = complaints(errors@).take(done + 1);
        assert(next.drop_last() =~= so_far);
        assert(next.last() == errors[done as int]@);
        if done > 0 {
            text.append("\n");
        }
        text.append(errors[done].field);
        text.append(": ");
        text.append(errors[done].message);
        proof {
            if done == 0 {
                assert(so_far.len() == 0);
                assert(text@ =~= next[0].0 + ": "@ + next[0].1);
            } else {
                assert(text@ =~= complaints_text(so_far) + "\n"@ + next.last().0 + ": "@
                    + next.last().1);
            }
        }
        done = done + 1;
    }
    assert(complaints(errors@).take(done as int) =~= complaints(errors@));
    text
}

} // verus!

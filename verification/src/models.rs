//! The records that the identity store and the shop's store hand back.

use vstd::prelude::*;

verus! {

/// `chrono::NaiveDateTime`: the moments of a record, carried and never
/// looked into.
#[verifier::external_type_specification]
#[verifier::external_body]
pub struct ExNaiveDateTime(chrono::NaiveDateTime);

/// `Clone` of a `chrono::NaiveDateTime`: the copy is the value itself.
pub assume_specification[ <chrono::NaiveDateTime as Clone>::clone ](
    moment: &chrono::NaiveDateTime,
) -> (copy: chrono::NaiveDateTime)
    ensures
        copy == *moment,
;

/// A user as the identity store holds it.
#[derive(Debug, Clone)]
pub struct User {
    pub id: i32,
    pub user_email: String,
    /// The digest of the password, never the password.
    pub user_password: String,
    pub user_fname: String,
    pub user_lname: String,
    pub user_tel: String,
    /// 0 for a deactivated account.
    pub user_is_active: i8,
    /// The enrolment for one-time codes; none, or empty, where the user has
    /// not enrolled.
    pub user_otp_url: Option<String>,
    /// Counts the changes of the password.
    pub password_version: i32,
    pub created_at: Option<chrono::NaiveDateTime>,
    pub updated_at: Option<chrono::NaiveDateTime>,
}

/// A user together with one shop that the user belongs to.
#[derive(Debug, Clone)]
pub struct UserWithShop {
    pub id: i32,
    pub user_email: String,
    pub user_fname: String,
    pub user_lname: String,
    pub user_tel: String,
    pub shop_id: i32,
    pub shop_name: String,
    pub shop_role_id: i32,
    pub shop_role_name: String,
    pub role_id: i32,
}

/// A category of a shop's products.
#[derive(Debug, Clone)]
pub struct Category {
    pub id: i32,
    pub shop_id: i32,
    pub category_type_id: i32,
    pub category_name: String,
}

/// A customer of a shop.
#[derive(Debug, Clone)]
pub struct Customer {
    pub id: i32,
    pub shop_id: i32,
    pub customer_fname: String,
    pub customer_lname: String,
    pub customer_tel: String,
    pub customer_email: Option<String>,
}

/// A shop.
#[derive(Debug, Clone)]
pub struct Shop {
    pub id: i32,
    pub shop_name: String,
    pub shop_address: Option<String>,
    pub shop_tel: Option<String>,
}

impl User {
    /// Whether the account is active.
    pub open spec fn spec_is_active(&self) -> bool {
        self.user_is_active != 0
    }

    /// Whether the user has enrolled for one-time codes: an enrolment that
    /// is there and not empty.
    pub open spec fn spec_has_otp(&self) -> bool {
        match self.user_otp_url {
            Some(url) => url@.len() > 0,
            None => false,
        }
    }

    /// Whether the account is active.
    pub fn is_active(&self) -> (active: bool)
        ensures
            active == self.spec_is_active(),
    {
        self.user_is_active != 0
    }

    /// Whether the user has enrolled for one-time codes.
    pub fn has_otp(&self) -> (enrolled: bool)
        ensures
            enrolled == self.spec_has_otp(),
    {
        match &self.user_otp_url {
            Some(url) => url.as_str().unicode_len() > 0,
            None => false,
        }
    }
}

} // verus!

use validator::ValidateEmail;
use vstd::prelude::*;

use super::error::UserInfoError;

verus! {

/// Whether the `validator` crate accepts `s` as an e-mail address
/// (its HTML5-style check of the local part and of the domain).
pub uninterp spec fn is_valid_email(s: Seq<char>) -> bool;

/// Calls `validator::ValidateEmail::validate_email` on the text; the
/// contract says only that the answer is the named check applied to it.
#[verifier::external_body]
fn validate_email_text(email: &str) -> (valid: bool)
    ensures
        valid == is_valid_email(email@),
{
    email.validate_email()
}

/// An e-mail address that passed validation.
#[derive(Clone, PartialEq, Eq, Hash, Debug)]
pub struct Email {
    e: String,
}

impl View for Email {
    type V = Seq<char>;

    closed spec fn view(&self) -> Seq<char> {
        self.e@
    }
}

impl Email {
    /// Builds an e-mail address; refused with `InvalidEmail` exactly when
    /// the validator rejects the text.
    pub fn new(email: &str) -> (r: Result<Email, UserInfoError>)
        ensures
            match r {
                Ok(e) => is_valid_email(email@) && e@ == email@,
                Err(err) => !is_valid_email(email@) && err == UserInfoError::InvalidEmail,
            },
    {
        let valid = validate_email_text(email);
        Self::from_check(email, valid)
    }

    /// Builds an e-mail address from the text and the validator's verdict on it.
    pub fn from_check(email: &str, valid: bool) -> (r: Result<Email, UserInfoError>)
        ensures
            match r {
                Ok(e) => valid && e@ == email@,
                Err(err) => !valid && err == UserInfoError::InvalidEmail,
            },
    {
        if valid {
            Ok(Email { e: email.to_owned() })
        } else {
            Err(UserInfoError::InvalidEmail)
        }
    }

    /// The address as text.
    pub fn as_str(&self) -> (s: &str)
        ensures
            s@ == self@,
    {
        self.e.as_str()
    }

    /// Whether two addresses are the same text.
    pub fn same_as(&self, other: &Email) -> (b: bool)
        ensures
            b == (self@ == other@),
    {
        self.e == other.e
    }

    /// A copy of the address.
    pub fn duplicate(&self) -> (r: Email)
        ensures
            r@ == self@,
    {
        Email { e: self.e.clone() }
    }
}

/// The shortest password that is accepted, counted in characters.
pub const PASSWORD_MIN_CHARS: usize = 8;

/// The longest password that is accepted, counted in characters.
pub const PASSWORD_MAX_CHARS: usize = 30;

/// Whether a password of these characters is accepted: between 8 and 30
/// characters, both included.
pub open spec fn is_valid_password(p: Seq<char>) -> bool {
    PASSWORD_MIN_CHARS <= p.len() <= PASSWORD_MAX_CHARS
}

/// A password of acceptable length.
#[derive(Clone, PartialEq, Eq, Debug)]
pub struct Password {
    p: String,
}

impl View for Password {
    type V = Seq<char>;

    closed spec fn view(&self) -> Seq<char> {
        self.p@
    }
}

impl Password {
    /// Builds a password; refused with `InvalidPassword` exactly when its
    /// length in characters is outside 8..=30.
    pub fn new(password: &str) -> (r: Result<Password, UserInfoError>)
        ensures
            match r {
                Ok(p) => is_valid_password(password@) && p@ == password@,
                Err(err) => !is_valid_password(password@) && err == UserInfoError::InvalidPassword,
            },
    {
        let n = password.unicode_len();
        if PASSWORD_MIN_CHARS <= n && n <= PASSWORD_MAX_CHARS {
            Ok(Password { p: password.to_owned() })
        } else {
            Err(UserInfoError::InvalidPassword)
        }
    }

    /// The password as text.
    pub fn as_str(&self) -> (s: &str)
        ensures
            s@ == self@,
    {
        self.p.as_str()
    }

    /// Whether two passwords are the same text.
    pub fn same_as(&self, other: &Password) -> (b: bool)
        ensures
            b == (self@ == other@),
    {
        self.p == other.p
    }

    /// A copy of the password.
    pub fn duplicate(&self) -> (r: Password)
        ensures
            r@ == self@,
    {
        Password { p: self.p.clone() }
    }
}

/// What a user is, as the contracts see it.
pub struct UserModel {
    pub email: Seq<char>,
    pub password: Seq<char>,
    pub requires_2fa: bool,
}

/// A registered user.
#[derive(Clone, Debug)]
pub struct User {
    pub email: Email,
    password: Password,
    requires_2fa: bool,
}

impl View for User {
    type V = UserModel;

    closed spec fn view(&self) -> UserModel {
        UserModel { email: self.email@, password: self.password@, requires_2fa: self.requires_2fa }
    }
}

impl User {
    /// Builds a user from checked parts; it always succeeds.
    pub fn new(email: Email, password: Password, requires_2fa: bool) -> (r: Result<User, UserInfoError>)
        ensures
            r matches Ok(u) && u@ == (UserModel {
                email: email@,
                password: password@,
                requires_2fa,
            }),
    {
        Ok(User { email, password, requires_2fa })
    }

    /// Whether the given address and password are this user's.
    pub fn validate(&self, email: &Email, password: &Password) -> (b: bool)
        ensures
            b == (self@.email == email@ && self@.password == password@),
    {
        self.email.same_as(email) && self.password.same_as(password)
    }

    /// The user's e-mail address.
    pub fn email(&self) -> (e: &Email)
        ensures
            e@ == self@.email,
    {
        &self.email
    }

    /// Whether the user logs in with a second factor.
    pub fn requires_2fa(&self) -> (b: bool)
        ensures
            b == self@.requires_2fa,
    {
        self.requires_2fa
    }

    /// A copy of the user.
    pub fn duplicate(&self) -> (r: User)
        ensures
            r@ == self@,
    {
        User {
            email: self.email.duplicate(),
            password: self.password.duplicate(),
            requires_2fa: self.requires_2fa,
        }
    }
}

} // verus!

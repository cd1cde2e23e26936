//! Form validation: sign-in, the two sign-up forms and the password change.

use vstd::prelude::*;
use crate::text::{is_white_space, trim_str, trimmed};

verus! {

/// Errors of the sign-in form.
pub struct LoginCheck {
    /// No e-mail or phone was entered (blank after trimming).
    pub email_error: bool,
    /// No password was entered.
    pub password_error: bool,
}

impl LoginCheck {
    pub open spec fn spec_is_valid(self) -> bool {
        !self.email_error && !self.password_error
    }

    /// The form may be submitted.
    pub fn is_valid(&self) -> (res: bool)
        ensures
            res == self.spec_is_valid(),
    {
        !self.email_error && !self.password_error
    }
}

/// The sign-in form may be submitted exactly when an e-mail (or phone) that
/// is not blank and a non-empty password were entered: a check whose flags
/// are those `check_login` gives for `email` and `password` is valid just then.
pub proof fn law_login_needs_both_fields(email: Seq<char>, password: Seq<char>, check: LoginCheck)
    requires
        check.email_error == (trimmed(email).len() == 0),
        check.password_error == (password.len() == 0),
    ensures
        check.spec_is_valid() <==> (trimmed(email).len() > 0 && password.len() > 0),
        password.len() == 0 ==> !check.spec_is_valid(),
{
}

/// Checks the sign-in form.
pub fn check_login(email: &str, password: &str) -> (res: LoginCheck)
    ensures
        res.email_error == (trimmed(email@).len() == 0),
        res.password_error == (password@.len() == 0),
{
    LoginCheck { email_error: trim_str(email).is_empty(), password_error: password.is_empty() }
}

/// Credentials sent to sign in.
pub struct LoginRequest {
    pub email: String,
    pub password: String,
}

/// The sign-in request for a form that passes `check_login`, as typed.
pub fn login_request(email: &str, password: &str) -> (res: Option<LoginRequest>)
    ensures
        match res {
            Some(r) => trimmed(email@).len() > 0 && password@.len() > 0 && r.email@ == email@
                && r.password@ == password@,
            None => trimmed(email@).len() == 0 || password@.len() == 0,
        },
{
    let check = check_login(email, password);
    if check.is_valid() {
        Some(LoginRequest { email: String::from_str(email), password: String::from_str(password) })
    } else {
        None
    }
}

/// A character allowed around the `@` of an e-mail address: neither white
/// space nor `@`.
pub open spec fn plain_email_char(c: char) -> bool {
    !is_white_space(c) && c != '@'
}

/// `s` has the shape `local@domain.tld`: one `@` with text before it, a `.`
/// after it with text on both sides, and no white space anywhere.
pub open spec fn looks_like_email(s: Seq<char>) -> bool {
    exists|at: int, dot: int|
        #![trigger s[at], s[dot]]
        {
            &&& 0 < at
            &&& at + 1 < dot
            &&& dot + 1 < s.len()
            &&& s[at] == '@'
            &&& s[dot] == '.'
            &&& forall|j: int| 0 <= j < s.len() && j != at ==> plain_email_char(#[trigger] s[j])
        }
}

/// Wraps `regex::Regex::new` and `Regex::is_match`. For the pattern
/// `^[^\s@]+@[^\s@]+\.[^\s@]+$` (where `\s` is Unicode white space and `$`
/// is the end of the text) a match is exactly `looks_like_email`.
#[verifier::external_body]
fn regex_is_match(pattern: &str, haystack: &str) -> (res: bool)
    requires
        pattern@ == "^[^\\s@]+@[^\\s@]+\\.[^\\s@]+$"@,
    ensures
        res == looks_like_email(haystack@),
{
    regex::Regex::new(pattern).unwrap().is_match(haystack)
}

/// Whether the sign-up form accepts `email`.
pub fn email_looks_valid(email: &str) -> (res: bool)
    ensures
        res == looks_like_email(email@),
{
    regex_is_match("^[^\\s@]+@[^\\s@]+\\.[^\\s@]+$", email)
}

/// Errors of the sign-up form with the terms checkbox.
pub struct RegisterFormCheck {
    /// The name has fewer than 2 characters once trimmed.
    pub name_error: bool,
    /// The e-mail does not look like `local@domain.tld`.
    pub email_error: bool,
    /// The password has fewer than 6 characters.
    pub password_error: bool,
    /// The confirmation differs from the password.
    pub confirm_error: bool,
    /// The terms of use were not accepted.
    pub terms_missing: bool,
}

impl RegisterFormCheck {
    pub open spec fn spec_is_valid(self) -> bool {
        !self.name_error && !self.email_error && !self.password_error && !self.confirm_error
            && !self.terms_missing
    }

    /// The form may be submitted.
    pub fn is_valid(&self) -> (res: bool)
        ensures
            res == self.spec_is_valid(),
    {
        !self.name_error && !self.email_error && !self.password_error && !self.confirm_error
            && !self.terms_missing
    }
}

/// The sign-up form with the terms checkbox may be submitted exactly when
/// the trimmed name has at least 2 characters, the e-mail looks like an
/// address, the password has at least 6 characters and equals its
/// confirmation, and the terms were accepted: a check whose flags are those
/// `check_register_form` gives is valid just then.
pub proof fn law_sign_up_needs_every_condition(
    name: Seq<char>,
    email: Seq<char>,
    password: Seq<char>,
    confirm_password: Seq<char>,
    terms: bool,
    check: RegisterFormCheck,
)
    requires
        check.name_error == (trimmed(name).len() < 2),
        check.email_error == !looks_like_email(email),
        check.password_error == (password.len() < 6),
        check.confirm_error == (password != confirm_password),
        check.terms_missing == !terms,
    ensures
        check.spec_is_valid() <==> (trimmed(name).len() >= 2 && looks_like_email(email) && password.len() >= 6
            && password == confirm_password && terms),
        !terms ==> !check.spec_is_valid(),
{
}

/// Checks the sign-up form that has a terms checkbox. Lengths are counted in
/// characters, as the form's messages ask.
pub fn check_register_form(
    name: &str,
    email: &str,
    password: &String,
    confirm_password: &String,
    terms: bool,
) -> (res: RegisterFormCheck)
    ensures
        res.name_error == (trimmed(name@).len() < 2),
        res.email_error == !looks_like_email(email@),
        res.password_error == (password@.len() < 6),
        res.confirm_error == (password@ != confirm_password@),
        res.terms_missing == !terms,
{
    RegisterFormCheck {
        name_error: trim_str(name).unicode_len() < 2,
        email_error: !email_looks_valid(email),
        password_error: password.as_str().unicode_len() < 6,
        confirm_error: !(*password == *confirm_password),
        terms_missing: !terms,
    }
}

/// What `validator`'s e-mail check (HTML5 address syntax, with IDN domains)
/// says of `s`.
pub uninterp spec fn validator_accepts_email(s: Seq<char>) -> bool;

/// Wraps `validator::ValidateEmail::validate_email`; its source rejects an
/// empty text and one without `@` before anything else.
#[verifier::external_body]
fn validator_email(s: &str) -> (res: bool)
    ensures
        res == validator_accepts_email(s@),
        s@.len() == 0 ==> !res,
        !s@.contains('@') ==> !res,
{
    validator::ValidateEmail::validate_email(&s)
}

/// Wraps `validator::ValidateLength::validate_length` with a lower and an
/// upper bound: the number of characters lies between them.
#[verifier::external_body]
fn validator_length(s: &str, min: u64, max: u64) -> (res: bool)
    ensures
        res == (min <= s@.len() <= max),
{
    validator::ValidateLength::<u64>::validate_length(&s, Some(min), Some(max), None)
}

/// Wraps `validator::validate_must_match`: the two values are equal.
#[verifier::external_body]
fn validator_must_match(a: &String, b: &String) -> (res: bool)
    ensures
        res == (a@ == b@),
{
    validator::validate_must_match(a, b)
}

/// Data of the sign-up panel.
pub struct RegisterData {
    pub name: String,
    pub email: String,
    pub password: String,
    pub confirm_password: String,
}

/// Fields of the sign-up panel that failed validation.
pub struct RegisterFieldErrors {
    pub name: bool,
    pub email: bool,
    pub password: bool,
    pub confirm_password: bool,
}

impl RegisterFieldErrors {
    pub open spec fn spec_none(self) -> bool {
        !self.name && !self.email && !self.password && !self.confirm_password
    }

    /// No field failed.
    pub fn none(&self) -> (res: bool)
        ensures
            res == self.spec_none(),
    {
        !self.name && !self.email && !self.password && !self.confirm_password
    }
}

/// Field errors of the sign-up panel given the verdict of the e-mail check:
/// the name takes 2 to 50 characters, the password 6 to 50, and the
/// confirmation must equal the password.
pub fn registration_errors(data: &RegisterData, email_accepted: bool) -> (res: RegisterFieldErrors)
    ensures
        res.name == !(2 <= data.name@.len() <= 50),
        res.email == !email_accepted,
        res.password == !(6 <= data.password@.len() <= 50),
        res.confirm_password == (data.confirm_password@ != data.password@),
{
    RegisterFieldErrors {
        name: !validator_length(data.name.as_str(), 2, 50),
        email: !email_accepted,
        password: !validator_length(data.password.as_str(), 6, 50),
        confirm_password: !validator_must_match(&data.confirm_password, &data.password),
    }
}

/// Validates the sign-up panel.
pub fn validate_registration(data: &RegisterData) -> (res: RegisterFieldErrors)
    ensures
        res.name == !(2 <= data.name@.len() <= 50),
        res.email == !validator_accepts_email(data.email@),
        res.password == !(6 <= data.password@.len() <= 50),
        res.confirm_password == (data.confirm_password@ != data.password@),
{
    let email_accepted = validator_email(data.email.as_str());
    registration_errors(data, email_accepted)
}

/// Outcome of the password change form.
pub enum PasswordChange {
    TooShort,
    Mismatch,
    Updated,
}

/// The password change form: the new password needs 6 characters and must equal
/// its confirmation.
pub fn password_change_outcome(new_password: &String, confirm_password: &String) -> (res:
    PasswordChange)
    ensures
        (res is TooShort) == (new_password@.len() < 6),
        (res is Mismatch) == (new_password@.len() >= 6 && new_password@ != confirm_password@),
        (res is Updated) == (new_password@.len() >= 6 && new_password@ == confirm_password@),
{
    if new_password.as_str().unicode_len() < 6 {
        PasswordChange::TooShort
    } else if !(*new_password == *confirm_password) {
        PasswordChange::Mismatch
    } else {
        PasswordChange::Updated
    }
}

impl PasswordChange {
    pub open spec fn spec_message(self) -> Seq<char> {
        match self {
            PasswordChange::TooShort => "Пароль должен быть не менее 6 символов"@,
            PasswordChange::Mismatch => "Пароли не совпадают"@,
            PasswordChange::Updated => "Пароль успешно обновлён!"@,
        }
    }

    /// The status line shown under the form.
    pub fn message(&self) -> (res: String)
        ensures
            res@ == self.spec_message(),
    {
        match self {
            PasswordChange::TooShort => String::from_str("Пароль должен быть не менее 6 символов"),
            PasswordChange::Mismatch => String::from_str("Пароли не совпадают"),
            PasswordChange::Updated => String::from_str("Пароль успешно обновлён!"),
        }
    }
}

} // verus!

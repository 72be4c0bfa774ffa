//! Validation of the account forms: what the registration and login routes
//! accept before they touch the database.
//!
//! Whether a string matches the email pattern is a deterministic judgement,
//! named here and supplied by the regex engine.  The password-strength
//! estimate is not: the estimator consults the calendar, so only the shape
//! of its outcome is assumed, and the decision taken on an outcome is a
//! verified function of it.

use vstd::prelude::*;
use vstd::string::{StringExecFns, StringSliceAdditionalSpecFns};
use vstd::utf8::encode_utf8;
use regex::Regex;

verus! {

/// Whether `pattern` compiles as a regular expression and `text` matches
/// it, as the regex engine decides; deterministic in both.
pub uninterp spec fn regex_match_of(pattern: Seq<char>, text: Seq<char>) -> bool;

/// Relies on `Regex::new` and `Regex::is_match`: whether the pattern
/// compiles and the text matches it.
#[verifier::external_body]
fn regex_is_match(pattern: &str, text: &str) -> (r: bool)
    ensures
        r == regex_match_of(pattern@, text@),
{
    Regex::new(pattern).map(|re| re.is_match(text)).unwrap_or(false)
}

/// Relies on `zxcvbn::zxcvbn`: the password's score, zero to four, and the
/// suggestion texts of its feedback.  The estimator scores year and date
/// tokens against the current calendar year, so the outcome is not a
/// function of the password alone; nothing beyond the score's range is
/// assumed of it.
#[verifier::external_body]
fn password_strength(password: &str) -> (r: (u8, Vec<String>))
    ensures
        r.0 <= 4,
{
    let entropy = zxcvbn::zxcvbn(password, &[]);
    let suggestions = match entropy.feedback() {
        Some(feedback) => feedback.suggestions().iter().map(|s| s.to_string()).collect(),
        None => Vec::new(),
    };
    (entropy.score() as u8, suggestions)
}

/// The pattern an email address must match.
pub open spec fn spec_email_pattern() -> Seq<char> {
    r#"(?:[a-z0-9!#$%&'*+/=?^_`{|}~-]+(?:\.[a-z0-9!#$%&'*+/=?^_`{|}~-]+)*|"(?:[\x01-\x08\x0b\x0c\x0e-\x1f\x21\x23-\x5b\x5d-\x7f]|\\[\x01-\x09\x0b\x0c\x0e-\x7f])*")@(?:(?:[a-z0-9](?:[a-z0-9-]*[a-z0-9])?\.)+[a-z0-9](?:[a-z0-9-]*[a-z0-9])?|\[(?:(?:(2(5[0-5]|[0-4][0-9])|1[0-9][0-9]|[1-9]?[0-9]))\.){3}(?:(2(5[0-5]|[0-4][0-9])|1[0-9][0-9]|[1-9]?[0-9])|[a-z0-9-]*[a-z0-9]:(?:[\x01-\x08\x0b\x0c\x0e-\x1f\x21-\x5a\x53-\x7f]|\\[\x01-\x09\x0b\x0c\x0e-\x7f])+)\])"#@
}

/// The email pattern as handed to the regex engine.
pub fn email_pattern() -> (r: &'static str)
    ensures
        r@ == spec_email_pattern(),
{
    r#"(?:[a-z0-9!#$%&'*+/=?^_`{|}~-]+(?:\.[a-z0-9!#$%&'*+/=?^_`{|}~-]+)*|"(?:[\x01-\x08\x0b\x0c\x0e-\x1f\x21\x23-\x5b\x5d-\x7f]|\\[\x01-\x09\x0b\x0c\x0e-\x7f])*")@(?:(?:[a-z0-9](?:[a-z0-9-]*[a-z0-9])?\.)+[a-z0-9](?:[a-z0-9-]*[a-z0-9])?|\[(?:(?:(2(5[0-5]|[0-4][0-9])|1[0-9][0-9]|[1-9]?[0-9]))\.){3}(?:(2(5[0-5]|[0-4][0-9])|1[0-9][0-9]|[1-9]?[0-9])|[a-z0-9-]*[a-z0-9]:(?:[\x01-\x08\x0b\x0c\x0e-\x1f\x21-\x5a\x53-\x7f]|\\[\x01-\x09\x0b\x0c\x0e-\x7f])+)\])"#
}

/// Whether a submitted email address is acceptable: non-empty and matched by
/// the email pattern.
pub open spec fn spec_email_ok(email: Seq<char>) -> bool {
    email.len() > 0 && regex_match_of(spec_email_pattern(), email)
}

/// A registration request: the desired account name, email and password.
pub struct NewUserForm {
    pub name: String,
    pub email: String,
    pub password: String,
}

/// What was wrong with a registration request, field by field; all empty
/// when the request is acceptable.
pub struct NewUserFormIssues {
    pub name: Vec<String>,
    pub email: Vec<String>,
    pub password: Vec<String>,
}

impl NewUserFormIssues {
    /// Whether any field was rejected.
    pub fn any(&self) -> (r: bool)
        ensures
            r == (self.name@.len() > 0 || self.email@.len() > 0 || self.password@.len() > 0),
    {
        self.name.len() > 0 || self.email.len() > 0 || self.password.len() > 0
    }
}

/// A login request: the account's email and password.
pub struct AuthUserForm {
    pub email: String,
    pub password: String,
}

/// What was wrong with a login request, field by field.
pub struct AuthUserFormIssues {
    pub email: Vec<String>,
    pub password: Vec<String>,
}

impl AuthUserFormIssues {
    /// Whether any field was rejected.
    pub fn any(&self) -> (r: bool)
        ensures
            r == (self.email@.len() > 0 || self.password@.len() > 0),
    {
        self.email.len() > 0 || self.password.len() > 0
    }
}

/// Checks an email field: one issue for an empty address, one for an address
/// the pattern rejects, none otherwise.
fn validate_email(email: &String) -> (r: Vec<String>)
    ensures
        email@.len() == 0 ==> r@.len() == 1 && r@[0]@ == "Email cannot be empty."@,
        email@.len() > 0 && !regex_match_of(spec_email_pattern(), email@) ==> r@.len() == 1
            && r@[0]@ == "Email is invalid."@,
        spec_email_ok(email@) ==> r@.len() == 0,
{
    let mut issues: Vec<String> = Vec::new();
    if email.as_str().is_empty() {
        issues.push(String::from_str("Email cannot be empty."));
    } else {
        let matched = regex_is_match(email_pattern(), email.as_str());
        if !matched {
            issues.push(String::from_str("Email is invalid."));
        }
    }
    issues
}

/// Judges the password field from the strength estimator's outcome: an
/// empty password is its own issue; otherwise a password scoring two or
/// less reports exactly the estimator's suggestions, and a stronger one
/// passes.
pub fn password_field_issues(password: &String, score: u8, suggestions: Vec<String>) -> (r: Vec<
    String,
>)
    ensures
        password@.len() == 0 ==> r@.len() == 1 && r@[0]@ == "Password cannot be empty."@,
        password@.len() > 0 && score <= 2 ==> r == suggestions,
        password@.len() > 0 && score > 2 ==> r@.len() == 0,
{
    let mut issues: Vec<String> = Vec::new();
    if password.as_str().is_empty() {
        issues.push(String::from_str("Password cannot be empty."));
        issues
    } else if score <= 2 {
        suggestions
    } else {
        issues
    }
}

/// Validates a registration request as the registration route does: the name
/// must be present and at most 128 bytes, the email non-empty and matching
/// the pattern, and the password non-empty.  The password's further fate
/// rests on the strength estimator's outcome, which the calendar
/// influences; what is decided on a given outcome is fixed by
/// [`password_field_issues`].
pub fn validate_new_user(input: &NewUserForm) -> (r: NewUserFormIssues)
    ensures
        input.name@.len() == 0 ==> r.name@.len() == 1 && r.name@[0]@ == "Name cannot be empty."@,
        input.name@.len() > 0 && encode_utf8(input.name@).len() > 128 ==> r.name@.len() == 1
            && r.name@[0]@ == "Name is too long."@,
        input.name@.len() > 0 && encode_utf8(input.name@).len() <= 128 ==> r.name@.len() == 0,
        input.email@.len() == 0 ==> r.email@.len() == 1 && r.email@[0]@
            == "Email cannot be empty."@,
        input.email@.len() > 0 && !regex_match_of(spec_email_pattern(), input.email@)
            ==> r.email@.len() == 1 && r.email@[0]@ == "Email is invalid."@,
        spec_email_ok(input.email@) ==> r.email@.len() == 0,
        input.password@.len() == 0 ==> r.password@.len() == 1 && r.password@[0]@
            == "Password cannot be empty."@,
{
    let mut name_issues: Vec<String> = Vec::new();
    let name_str = input.name.as_str();
    let name_bytes = name_str.as_bytes();
    proof {
        assert(name_bytes@ == encode_utf8(input.name@));
    }
    if name_str.is_empty() {
        name_issues.push(String::from_str("Name cannot be empty."));
    } else if name_bytes.len() > 128 {
        name_issues.push(String::from_str("Name is too long."));
    }
    let email_issues = validate_email(&input.email);
    let password_issues = if input.password.as_str().is_empty() {
        password_field_issues(&input.password, 0, Vec::new())
    } else {
        let (score, suggestions) = password_strength(input.password.as_str());
        password_field_issues(&input.password, score, suggestions)
    };
    NewUserFormIssues { name: name_issues, email: email_issues, password: password_issues }
}

/// Validates a login request as the login route does: the email must be
/// non-empty and match the pattern, the password non-empty.
pub fn validate_auth_user(input: &AuthUserForm) -> (r: AuthUserFormIssues)
    ensures
        input.email@.len() == 0 ==> r.email@.len() == 1 && r.email@[0]@
            == "Email cannot be empty."@,
        input.email@.len() > 0 && !regex_match_of(spec_email_pattern(), input.email@)
            ==> r.email@.len() == 1 && r.email@[0]@ == "Email is invalid."@,
        spec_email_ok(input.email@) ==> r.email@.len() == 0,
        input.password@.len() == 0 ==> r.password@.len() == 1 && r.password@[0]@
            == "Password cannot be empty."@,
        input.password@.len() > 0 ==> r.password@.len() == 0,
{
    let email_issues = validate_email(&input.email);
    let mut password_issues: Vec<String> = Vec::new();
    if input.password.as_str().is_empty() {
        password_issues.push(String::from_str("Password cannot be empty."));
    }
    AuthUserFormIssues { email: email_issues, password: password_issues }
}

} // verus!

use vstd::prelude::*;
use vstd::string::StrSliceExecFns;

verus! {

/// Body of a registration request: a username, a plaintext password and an
/// optional e-mail address.
pub struct UserRequest {
    pub username: String,
    pub password: String,
    pub email_address: Option<String>,
}

/// Body of a login request: a username and a plaintext password.
pub struct LoginRequest {
    pub username: String,
    pub password: String,
}

/// One field-level complaint produced by input validation.
#[derive(Clone, Copy, PartialEq, Eq, Debug)]
pub enum FieldIssue {
    UsernameLength,
    PasswordLength,
    EmailFormat,
    UsernameEmpty,
    PasswordEmpty,
}

impl FieldIssue {
    pub open spec fn spec_message(&self) -> Seq<char> {
        match self {
            FieldIssue::UsernameLength => "Username must be between 5 and 20 characters"@,
            FieldIssue::PasswordLength => "Password must be at least 5 characters"@,
            FieldIssue::EmailFormat => "Email address is not valid"@,
            FieldIssue::UsernameEmpty => "Username cannot be empty"@,
            FieldIssue::PasswordEmpty => "Password cannot be empty"@,
        }
    }

    /// The human-readable message reported for this complaint.
    pub fn message(&self) -> (m: &'static str)
        ensures
            m@ == self.spec_message(),
    {
        match self {
            FieldIssue::UsernameLength => "Username must be between 5 and 20 characters",
            FieldIssue::PasswordLength => "Password must be at least 5 characters",
            FieldIssue::EmailFormat => "Email address is not valid",
            FieldIssue::UsernameEmpty => "Username cannot be empty",
            FieldIssue::PasswordEmpty => "Password cannot be empty",
        }
    }
}

/// Whether a string passes the e-mail format check. The result stands for
/// whatever `validator`'s HTML5-style e-mail validation returns for these
/// characters; it is a pure function of them.
pub uninterp spec fn email_ok(s: Seq<char>) -> bool;

/// Relies on `validator::ValidateEmail::validate_email` for `&str`: the
/// HTML5-style e-mail format check, a pure function of the characters.
/// The source rejects an empty string outright.
#[verifier::external_body]
fn check_email(s: &str) -> (r: bool)
    ensures
        r == email_ok(s@),
        s@.len() == 0 ==> !r,
{
    validator::ValidateEmail::validate_email(&s)
}

/// A username must be 5 to 20 characters long.
pub open spec fn spec_username_len_ok(u: Seq<char>) -> bool {
    5 <= u.len() && u.len() <= 20
}

/// A password must be at least 5 characters long.
pub open spec fn spec_password_len_ok(p: Seq<char>) -> bool {
    p.len() >= 5
}

impl UserRequest {
    /// A registration request is well-formed when the username and password
    /// lengths are in range and the e-mail address, if given, has a valid
    /// format.
    pub open spec fn valid(&self) -> bool {
        &&& spec_username_len_ok(self.username@)
        &&& spec_password_len_ok(self.password@)
        &&& (self.email_address matches Some(e) ==> email_ok(e@))
    }

    /// The complaints validation reports for this request, in field order.
    pub open spec fn issues(&self) -> Seq<FieldIssue> {
        (if !spec_username_len_ok(self.username@) {
            seq![FieldIssue::UsernameLength]
        } else {
            Seq::<FieldIssue>::empty()
        }) + (if !spec_password_len_ok(self.password@) {
            seq![FieldIssue::PasswordLength]
        } else {
            Seq::<FieldIssue>::empty()
        }) + (if self.email_address matches Some(e) && !email_ok(e@) {
            seq![FieldIssue::EmailFormat]
        } else {
            Seq::<FieldIssue>::empty()
        })
    }

    /// Checks the request shape: `Ok` exactly when the request is valid,
    /// otherwise the list of field complaints.
    pub fn validate(&self) -> (r: Result<(), Vec<FieldIssue>>)
        ensures
            r is Ok <==> self.valid(),
            r matches Err(v) ==> v@ == self.issues() && v@.len() > 0,
    {
        let mut issues: Vec<FieldIssue> = Vec::new();
        let ulen = self.username.as_str().unicode_len();
        if ulen < 5 || ulen > 20 {
            issues.push(FieldIssue::UsernameLength);
        }
        let plen = self.password.as_str().unicode_len();
        if plen < 5 {
            issues.push(FieldIssue::PasswordLength);
        }
        match &self.email_address {
            Some(e) => {
                if !check_email(e.as_str()) {
                    issues.push(FieldIssue::EmailFormat);
                }
            },
            None => {},
        }
        proof {
            assert(issues@ =~= self.issues());
        }
        if issues.len() == 0 {
            Ok(())
        } else {
            Err(issues)
        }
    }
}

impl LoginRequest {
    /// A login request is well-formed when both fields are non-empty.
    pub open spec fn valid(&self) -> bool {
        self.username@.len() >= 1 && self.password@.len() >= 1
    }

    /// The complaints validation reports for this request, in field order.
    pub open spec fn issues(&self) -> Seq<FieldIssue> {
        (if self.username@.len() < 1 {
            seq![FieldIssue::UsernameEmpty]
        } else {
            Seq::<FieldIssue>::empty()
        }) + (if self.password@.len() < 1 {
            seq![FieldIssue::PasswordEmpty]
        } else {
            Seq::<FieldIssue>::empty()
        })
    }

    /// Checks the request shape: `Ok` exactly when the request is valid,
    /// otherwise the list of field complaints.
    pub fn validate(&self) -> (r: Result<(), Vec<FieldIssue>>)
        ensures
            r is Ok <==> self.valid(),
            r matches Err(v) ==> v@ == self.issues() && v@.len() > 0,
    {
        let mut issues: Vec<FieldIssue> = Vec::new();
        if self.username.as_str().unicode_len() < 1 {
            issues.push(FieldIssue::UsernameEmpty);
        }
        if self.password.as_str().unicode_len() < 1 {
            issues.push(FieldIssue::PasswordEmpty);
        }
        proof {
            assert(issues@ =~= self.issues());
        }
        if issues.len() == 0 {
            Ok(())
        } else {
            Err(issues)
        }
    }
}

} // verus!

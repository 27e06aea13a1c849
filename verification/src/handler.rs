use vstd::prelude::*;
use crate::TOKEN_LIFETIME_SECS;
use crate::credential::{bcrypt_check, hash_password, verify_password};
use crate::store::{User, UserStore, clone_opt_str, contains_name, names_unique, user_with_name};
use crate::token::{issue_token, jwt_of};
use crate::validate::{FieldIssue, LoginRequest, UserRequest};

verus! {

/// What the registration flow decides about a request before any hashing:
/// reject it, report the name as taken, or accept it as fresh.
pub enum RegisterDecision {
    Rejected,
    Conflict,
    Fresh,
}

/// What the login flow decides about a credential pair: reject the shape,
/// report the credentials invalid, fail on a malformed stored hash, or
/// authenticate the named subject.
pub enum AuthDecision {
    Rejected,
    InvalidCredentials,
    VerifyError,
    Authenticated(Seq<char>),
}

/// The registration decision for `req` against the stored rows.
pub open spec fn register_decision(users: Seq<User>, req: UserRequest) -> RegisterDecision {
    if !req.valid() {
        RegisterDecision::Rejected
    } else if contains_name(users, req.username@) {
        RegisterDecision::Conflict
    } else {
        RegisterDecision::Fresh
    }
}

/// The login decision for `(username, password)` against the stored rows.
/// An unknown username and a wrong password meet in the same
/// `InvalidCredentials` outcome.
pub open spec fn login_decision(
    users: Seq<User>,
    username: Seq<char>,
    password: Seq<char>,
) -> AuthDecision {
    if !(username.len() >= 1 && password.len() >= 1) {
        AuthDecision::Rejected
    } else if !contains_name(users, username) {
        AuthDecision::InvalidCredentials
    } else {
        match bcrypt_check(password, user_with_name(users, username).password_hash@) {
            Option::None => AuthDecision::VerifyError,
            Option::Some(false) => AuthDecision::InvalidCredentials,
            Option::Some(true) => AuthDecision::Authenticated(username),
        }
    }
}

/// The response of the registration endpoint.
#[derive(PartialEq, Debug)]
pub enum RegisterResponse {
    /// HTTP 201 with the stored row.
    Created(User),
    /// HTTP 400 with the field complaints.
    Invalid(Vec<FieldIssue>),
    /// HTTP 400: the username is already taken.
    Conflict,
    /// HTTP 400: the password could not be hashed.
    HashFailed,
}

impl RegisterResponse {
    pub open spec fn spec_status_code(&self) -> u16 {
        match self {
            RegisterResponse::Created(_) => 201,
            RegisterResponse::Invalid(_) => 400,
            RegisterResponse::Conflict => 400,
            RegisterResponse::HashFailed => 400,
        }
    }

    /// The HTTP status this response is reported with.
    pub fn status_code(&self) -> (c: u16)
        ensures
            c == self.spec_status_code(),
    {
        match self {
            RegisterResponse::Created(_) => 201,
            RegisterResponse::Invalid(_) => 400,
            RegisterResponse::Conflict => 400,
            RegisterResponse::HashFailed => 400,
        }
    }

    pub open spec fn spec_message(&self) -> Seq<char> {
        match self {
            RegisterResponse::Created(_) => ""@,
            RegisterResponse::Invalid(_) => ""@,
            RegisterResponse::Conflict => "Username has already been taken"@,
            RegisterResponse::HashFailed => "Failed to hash password"@,
        }
    }

    /// The message this response carries; empty where the body is the stored
    /// row or the field complaints.
    pub fn message(&self) -> (m: &'static str)
        ensures
            m@ == self.spec_message(),
    {
        match self {
            RegisterResponse::Created(_) => "",
            RegisterResponse::Invalid(_) => "",
            RegisterResponse::Conflict => "Username has already been taken",
            RegisterResponse::HashFailed => "Failed to hash password",
        }
    }
}

/// The response of the login endpoint.
#[derive(PartialEq, Debug)]
pub enum LoginResponse {
    /// HTTP 200 with the issued token.
    LoggedIn(String),
    /// HTTP 400 with the field complaints.
    Invalid(Vec<FieldIssue>),
    /// HTTP 401; deliberately the same response for an unknown username and
    /// a wrong password.
    Unauthorized,
    /// HTTP 500.
    ServerError,
}

impl LoginResponse {
    pub open spec fn spec_status_code(&self) -> u16 {
        match self {
            LoginResponse::LoggedIn(_) => 200,
            LoginResponse::Invalid(_) => 400,
            LoginResponse::Unauthorized => 401,
            LoginResponse::ServerError => 500,
        }
    }

    /// The HTTP status this response is reported with.
    pub fn status_code(&self) -> (c: u16)
        ensures
            c == self.spec_status_code(),
    {
        match self {
            LoginResponse::LoggedIn(_) => 200,
            LoginResponse::Invalid(_) => 400,
            LoginResponse::Unauthorized => 401,
            LoginResponse::ServerError => 500,
        }
    }

    pub open spec fn spec_message(&self) -> Seq<char> {
        match self {
            LoginResponse::LoggedIn(_) => "Login successful"@,
            LoginResponse::Invalid(_) => ""@,
            LoginResponse::Unauthorized => "Invalid credentials"@,
            LoginResponse::ServerError => "Internal server error"@,
        }
    }

    /// The message this response carries; empty where the body is the field
    /// complaints.
    pub fn message(&self) -> (m: &'static str)
        ensures
            m@ == self.spec_message(),
    {
        match self {
            LoginResponse::LoggedIn(_) => "Login successful",
            LoginResponse::Invalid(_) => "",
            LoginResponse::Unauthorized => "Invalid credentials",
            LoginResponse::ServerError => "Internal server error",
        }
    }
}

/// Registers a user: validates the request shape, rejects a username that is
/// already stored, hashes the password and inserts the new row, whose
/// timestamps are all set to `now`.
pub fn register(store: &mut UserStore, user: &UserRequest, now: u64) -> (r: RegisterResponse)
    requires
        old(store).wf(),
        old(store).spec_next_id() < u64::MAX,
    ensures
        final(store).wf(),
        register_decision(old(store)@, *user) is Rejected ==> (r matches RegisterResponse::Invalid(
            v,
        ) && v@ == user.issues() && final(store)@ == old(store)@),
        register_decision(old(store)@, *user) is Conflict ==> r is Conflict && final(store)@ == old(
            store,
        )@,
        register_decision(old(store)@, *user) is Fresh ==> match r {
            RegisterResponse::Created(u) => {
                &&& final(store)@ == old(store)@.push(u)
                &&& u.id == old(store).spec_next_id()
                &&& u.name@ == user.username@
                &&& bcrypt_check(user.password@, u.password_hash@) == Some(true)
                &&& u.password_hash@.len() == 60
                &&& u.email_address == user.email_address
                &&& u.created_at == now
                &&& u.updated_at == now
                &&& u.operation_at == now
            },
            RegisterResponse::HashFailed => final(store)@ == old(store)@,
            _ => false,
        },
{
    match user.validate() {
        Err(issues) => RegisterResponse::Invalid(issues),
        Ok(()) => {
            let taken = store.find_by_name(&user.username).is_some();
            if taken {
                RegisterResponse::Conflict
            } else {
                match hash_password(&user.password) {
                    Err(_) => RegisterResponse::HashFailed,
                    Ok(h) => {
                        let email = clone_opt_str(&user.email_address);
                        let u = store.insert_new_user(&user.username, h, email, now);
                        RegisterResponse::Created(u)
                    },
                }
            }
        },
    }
}

/// Logs a user in: validates the request shape, looks the username up,
/// verifies the password against the stored hash and, on a match, issues a
/// token bound to the stored name at second `now`, signed with `secret`.
pub fn login(store: &UserStore, credential: &LoginRequest, now: u64, secret: &String) -> (r:
    LoginResponse)
    requires
        store.wf(),
        now + TOKEN_LIFETIME_SECS <= u64::MAX,
    ensures
        (r matches LoginResponse::Invalid(v) && v@ == credential.issues()) <==> login_decision(
            store@,
            credential.username@,
            credential.password@,
        ) is Rejected,
        r is Unauthorized <==> login_decision(
            store@,
            credential.username@,
            credential.password@,
        ) is InvalidCredentials,
        r is ServerError <==> login_decision(
            store@,
            credential.username@,
            credential.password@,
        ) is VerifyError,
        login_decision(store@, credential.username@, credential.password@) matches
            AuthDecision::Authenticated(sub) ==> r matches LoginResponse::LoggedIn(t) && t@
            == jwt_of(sub, now as int, now + TOKEN_LIFETIME_SECS, secret@) && t@.len() > 0,
        r matches LoginResponse::LoggedIn(t) ==> login_decision(
            store@,
            credential.username@,
            credential.password@,
        ) matches AuthDecision::Authenticated(sub) && t@ == jwt_of(
            sub,
            now as int,
            now + TOKEN_LIFETIME_SECS,
            secret@,
        ) && t@.len() > 0,
{
    match credential.validate() {
        Err(issues) => LoginResponse::Invalid(issues),
        Ok(()) => match store.find_by_name(&credential.username) {
            None => LoginResponse::Unauthorized,
            Some(u) => match verify_password(&credential.password, &u.password_hash) {
                Err(_) => LoginResponse::ServerError,
                Ok(false) => LoginResponse::Unauthorized,
                Ok(true) => {
                    let name = u.name.clone();
                    match issue_token(&name, now, secret) {
                        Ok(t) => LoginResponse::LoggedIn(t),
                        Err(_) => LoginResponse::ServerError,
                    }
                },
            },
        },
    }
}

/// Law: after a fresh, valid registration stored the row `u`, logging in
/// with the registered username and the registered plaintext password
/// authenticates that username.
pub proof fn lemma_register_then_login_authenticates(
    users: Seq<User>,
    u: User,
    password: Seq<char>,
)
    requires
        names_unique(users),
        !contains_name(users, u.name@),
        u.name@.len() >= 1,
        password.len() >= 1,
        bcrypt_check(password, u.password_hash@) == Some(true),
    ensures
        login_decision(users.push(u), u.name@, password) == AuthDecision::Authenticated(u.name@),
{
    let stored = users.push(u);
    assert(stored[users.len() as int] == u);
    assert(contains_name(stored, u.name@));
    let i = choose|i: int| 0 <= i < stored.len() && stored[i].name@ == u.name@;
    if i < users.len() {
        assert(users[i].name@ == u.name@);
        assert(false);
    }
    assert(user_with_name(stored, u.name@) == u);
}

/// Law: registering a username that a stored row already carries is decided
/// as a conflict, whatever the rest of the request.
pub proof fn lemma_duplicate_registration_conflicts(users: Seq<User>, u: User, req: UserRequest)
    requires
        req.valid(),
        req.username@ == u.name@,
    ensures
        register_decision(users.push(u), req) == RegisterDecision::Conflict,
{
    assert(users.push(u)[users.len() as int] == u);
    assert(contains_name(users.push(u), req.username@));
}

/// Law: a login with an unknown username and a login with a known username
/// but a wrong password are decided identically, as the same
/// invalid-credentials outcome; neither reveals which check failed.
pub proof fn lemma_auth_failures_indistinguishable(
    users1: Seq<User>,
    name1: Seq<char>,
    password1: Seq<char>,
    users2: Seq<User>,
    name2: Seq<char>,
    password2: Seq<char>,
)
    requires
        name1.len() >= 1,
        password1.len() >= 1,
        name2.len() >= 1,
        password2.len() >= 1,
        !contains_name(users1, name1),
        contains_name(users2, name2),
        bcrypt_check(password2, user_with_name(users2, name2).password_hash@) == Some(false),
    ensures
        login_decision(users1, name1, password1) == AuthDecision::InvalidCredentials,
        login_decision(users2, name2, password2) == AuthDecision::InvalidCredentials,
        login_decision(users1, name1, password1) == login_decision(users2, name2, password2),
{
}

} // verus!

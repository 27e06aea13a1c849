use user_auth::handler::{login, register, LoginResponse, RegisterResponse};
use user_auth::store::UserStore;
use user_auth::validate::{LoginRequest, UserRequest};

fn register_request(username: &str, password: &str, email: Option<&str>) -> UserRequest {
    UserRequest {
        username: username.to_string(),
        password: password.to_string(),
        email_address: email.map(|e| e.to_string()),
    }
}

fn login_request(username: &str, password: &str) -> LoginRequest {
    LoginRequest { username: username.to_string(), password: password.to_string() }
}

#[test]
fn register_then_login_succeeds() {
    let mut store = UserStore::new();
    let secret = "test_signing_secret".to_string();
    let now: u64 = 1_700_000_000;

    let req = register_request("alice123", "secret1", Some("a@example.com"));
    let r = register(&mut store, &req, now);
    assert_eq!(r.status_code(), 201);
    let created = match r {
        RegisterResponse::Created(u) => u,
        other => panic!("expected Created, got {:?}", other),
    };
    assert_eq!(created.name, "alice123");
    assert_ne!(created.password_hash, "secret1");
    assert_eq!(created.password_hash.chars().count(), 60);
    assert_eq!(created.email_address.as_deref(), Some("a@example.com"));
    assert_eq!(created.id, 1);
    assert_eq!(created.created_at, now);

    let l = login(&store, &login_request("alice123", "secret1"), now, &secret);
    assert_eq!(l.status_code(), 200);
    assert_eq!(l.message(), "Login successful");
    match l {
        LoginResponse::LoggedIn(token) => assert!(!token.is_empty()),
        other => panic!("expected LoggedIn, got {:?}", other),
    }

    let bad = login(&store, &login_request("alice123", "wrong"), now, &secret);
    assert_eq!(bad.status_code(), 401);
    assert_eq!(bad.message(), "Invalid credentials");
    assert!(matches!(bad, LoginResponse::Unauthorized));
}

#[test]
fn duplicate_username_is_conflict() {
    let mut store = UserStore::new();
    let now: u64 = 1_700_000_000;

    let first = register(&mut store, &register_request("carol77", "hunter2x", None), now);
    assert!(matches!(first, RegisterResponse::Created(_)));
    assert_eq!(store.len(), 1);

    let second = register(&mut store, &register_request("carol77", "otherpass", None), now + 5);
    assert_eq!(second.status_code(), 400);
    assert_eq!(second.message(), "Username has already been taken");
    assert!(matches!(second, RegisterResponse::Conflict));
    assert_eq!(store.len(), 1);
}

#[test]
fn unknown_user_and_wrong_password_indistinguishable() {
    let mut store = UserStore::new();
    let secret = "test_signing_secret".to_string();
    let now: u64 = 1_700_000_000;

    let r = register(&mut store, &register_request("daniel9", "pa55word", None), now);
    assert!(matches!(r, RegisterResponse::Created(_)));

    let unknown = login(&store, &login_request("nosuchuser", "pa55word"), now, &secret);
    let wrong = login(&store, &login_request("daniel9", "wrongpass"), now, &secret);

    assert!(matches!(unknown, LoginResponse::Unauthorized));
    assert!(matches!(wrong, LoginResponse::Unauthorized));
    assert_eq!(unknown, wrong);
    assert_eq!(unknown.status_code(), wrong.status_code());
    assert_eq!(unknown.message(), wrong.message());
    assert_eq!(unknown.message(), "Invalid credentials");
}

#[test]
fn exact_match_lookup_does_not_cross_usernames() {
    let mut store = UserStore::new();
    let secret = "test_signing_secret".to_string();
    let now: u64 = 1_700_000_000;

    let r = register(&mut store, &register_request("xalice123x", "secret1", None), now);
    assert!(matches!(r, RegisterResponse::Created(_)));

    // a name merely contained in a stored one neither conflicts nor logs in
    let fresh = register(&mut store, &register_request("alice123", "secret1", None), now);
    assert!(matches!(fresh, RegisterResponse::Created(_)));
    let sub = login(&store, &login_request("lice12", "secret1"), now, &secret);
    assert!(matches!(sub, LoginResponse::Unauthorized));
}

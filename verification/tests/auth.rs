use lotide::auth::{
    authenticate, check_login, check_username, hash_password, name_in_use, new_uuid,
    require_login, uuid_to_string, LoginOutcome, LoginRow,
};
use lotide::{Error, UserLocalID};

const TOKEN: u128 = 0x936da01f_9abd_4d9d_80c7_02af85c822a8;

fn user_error(e: Error) -> (u16, String) {
    match e {
        Error::UserError(res) => (res.status, String::from_utf8(res.body).unwrap()),
        other => panic!("{:?}", other),
    }
}

#[test]
fn bearer_token_is_read_as_uuid() {
    assert_eq!(
        authenticate(Some(b"Bearer 936da01f-9abd-4d9d-80c7-02af85c822a8")),
        Some(TOKEN)
    );
    assert_eq!(authenticate(Some(b"Bearer 936da01f9abd4d9d80c702af85c822a8")), Some(TOKEN));
    assert_eq!(
        authenticate(Some(b"Bearer urn:uuid:936da01f-9abd-4d9d-80c7-02af85c822a8")),
        Some(TOKEN)
    );
}

#[test]
fn requests_without_usable_token_are_anonymous() {
    assert_eq!(authenticate(None), None);
    assert_eq!(authenticate(Some(b"")), None);
    assert_eq!(authenticate(Some(b"Bearer")), None);
    assert_eq!(authenticate(Some(b"Bearer ")), None);
    assert_eq!(authenticate(Some(b"Bearer not-a-uuid")), None);
    assert_eq!(authenticate(Some(b"Basic QWxhZGRpbjpvcGVuIHNlc2FtZQ==")), None);
    assert_eq!(authenticate(Some(b"bearer 936da01f-9abd-4d9d-80c7-02af85c822a8")), None);
    assert_eq!(authenticate(Some(b"Bearer936da01f-9abd-4d9d-80c7-02af85c822a8")), None);
    assert_eq!(authenticate(Some(b"Bearer 936da01f-9abd-4d9d-80c7-02af85c822a8\n")), None);
    assert_eq!(authenticate(Some(b"Bearer 936da01f-9abd-4d9d-80c7-02af85c822a8\x7f")), None);
    assert_eq!(authenticate(Some(b"Bearer 936da01f-9abd-4d9d-80c7-02af85c822a8\xc3\xa9")), None);
    assert_eq!(authenticate(Some(b"Bearer\t936da01f-9abd-4d9d-80c7-02af85c822a8")), None);
}

#[test]
fn uuids_are_written_with_hyphens() {
    assert_eq!(uuid_to_string(TOKEN), "936da01f-9abd-4d9d-80c7-02af85c822a8");
    assert_eq!(uuid_to_string(0), "00000000-0000-0000-0000-000000000000");
}

#[test]
fn fresh_uuids_are_random_version_four() {
    let a = new_uuid();
    let b = new_uuid();
    assert_ne!(a, b);
    assert_eq!((a >> 76) & 0xf, 4);
    assert_eq!((b >> 76) & 0xf, 4);
    assert_eq!((a >> 62) & 0x3, 2);
    assert_eq!((b >> 62) & 0x3, 2);
}

#[test]
fn a_long_password_matches_its_own_hash() {
    let password = "x".repeat(100);
    let hash = hash_password(&password).unwrap();
    let row = LoginRow { id: UserLocalID(9), passhash: Some(hash) };
    assert!(matches!(
        check_login(Some(&row), &password),
        Ok(LoginOutcome::Granted(UserLocalID(9)))
    ));
}

#[test]
fn login_is_required() {
    assert!(matches!(require_login(Some(UserLocalID(4))), Ok(UserLocalID(4))));
    let (status, body) = user_error(require_login(None).unwrap_err());
    assert_eq!((status, body.as_str()), (401, "Login Required"));
}

#[test]
fn usernames_hold_basic_letters_digits_and_underscores() {
    assert!(check_username("alice_01").is_ok());
    assert!(check_username("ALICE").is_ok());
    assert!(check_username("_").is_ok());
    assert!(check_username("").is_ok());
    for bad in ["al ice", "alice!", "al-ice", "älice", "a.b", "a@b", "a/b", "alice\n"] {
        let (status, body) = user_error(check_username(bad).unwrap_err());
        assert_eq!((status, body.as_str()), (400, "Username contains disallowed characters"));
    }
    let (status, body) = user_error(name_in_use());
    assert_eq!((status, body.as_str()), (400, "That name is already in use"));
}

#[test]
fn login_checks_the_password_against_the_hash() {
    let hash = hash_password("correct horse").unwrap();
    assert!(hash.starts_with("$2b$12$"));
    assert_ne!(hash, "correct horse");
    let row = LoginRow { id: UserLocalID(4), passhash: Some(hash) };
    match check_login(Some(&row), "correct horse") {
        Ok(LoginOutcome::Granted(id)) => assert_eq!(id, UserLocalID(4)),
        other => panic!("{:?}", other),
    }
    match check_login(Some(&row), "wrong") {
        Ok(LoginOutcome::Denied(res)) => {
            assert_eq!(res.status, 403);
            assert_eq!(res.body, b"Incorrect password");
        }
        other => panic!("{:?}", other),
    }
}

#[test]
fn login_against_a_known_hash() {
    let row = LoginRow {
        id: UserLocalID(1),
        passhash: Some("$2y$05$bvIG6Nmid91Mu9RcmmWZfO5HJIMCT8riNW0hEp8f6/FuA2/mHZFpe".to_owned()),
    };
    assert!(matches!(check_login(Some(&row), "password"), Ok(LoginOutcome::Granted(_))));
    assert!(matches!(check_login(Some(&row), "Password"), Ok(LoginOutcome::Denied(_))));
}

#[test]
fn login_without_user_or_password_is_refused() {
    let (status, body) = user_error(check_login(None, "x").unwrap_err());
    assert_eq!((status, body.as_str()), (400, "No local user found by that name"));
    let row = LoginRow { id: UserLocalID(4), passhash: None };
    let (status, body) = user_error(check_login(Some(&row), "x").unwrap_err());
    assert_eq!((status, body.as_str()), (400, "No password set for this user"));
    let broken = LoginRow { id: UserLocalID(4), passhash: Some("not a hash".to_owned()) };
    assert!(matches!(check_login(Some(&broken), "x"), Err(Error::InternalStrStatic(_))));
    assert!(matches!(hash_password("nul\0inside"), Err(Error::InternalStrStatic(_))));
}

#[test]
fn a_hash_outside_ascii_is_not_checked() {
    // 53 bytes after the cost, with a two-byte character across byte 22.
    let hash = format!("$2b$04${}\u{e9}{}", "a".repeat(21), "b".repeat(30));
    assert_eq!(hash.len(), 7 + 53);
    let row = LoginRow { id: UserLocalID(4), passhash: Some(hash) };
    assert!(matches!(
        check_login(Some(&row), "x"),
        Err(Error::InternalStrStatic("Failed to check password"))
    ));
}

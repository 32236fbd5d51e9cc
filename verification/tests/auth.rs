use auth_api::auth::{
    auth_finish, auth_start, convert_plain_token, hash_password, hash_password_with_salt,
    is_internal_token, new_token, token_from_bytes, validate_password, AuthResponse, AuthStep,
};
use auth_api::config::AppConfiguration;
use auth_api::{encrypt, Error};

fn cfg() -> AppConfiguration {
    AppConfiguration {
        hasura_endpoint: "http://backend/v1/graphql".to_string(),
        internal_token: "some_secret".to_string(),
    }
}

#[test]
fn password_checks_against_its_hash() {
    let h = hash_password("secret").unwrap();
    assert!(h.starts_with("$argon2i$v=19$m=4096,t=3,p=1$"));
    assert_eq!(validate_password("secret", &h).unwrap(), true);
    assert_eq!(validate_password("Secret", &h).unwrap(), false);
}

#[test]
fn password_hashes_differ_by_salt() {
    let a = hash_password("pw").unwrap();
    let b = hash_password("pw").unwrap();
    assert_ne!(a, b);
}

#[test]
fn hash_with_known_salt() {
    let h = hash_password_with_salt("password", b"somesalt").unwrap();
    assert_eq!(h, "$argon2i$v=19$m=4096,t=3,p=1$c29tZXNhbHQ$iWh06vD8Fy27wf9npn6FXWiCX4K6pW6Ue1Bnzz07Z8A");
    assert_eq!(validate_password("password", &h).unwrap(), true);
}

#[test]
fn hash_with_short_salt_fails() {
    match hash_password_with_salt("password", b"short") {
        Err(Error::ArgonHash { msg }) => assert_eq!(msg, "Salt is too short"),
        _ => panic!("expected an ArgonHash error"),
    }
}

#[test]
fn validate_against_bad_hash_fails() {
    assert!(matches!(validate_password("pw", "not a hash"), Err(Error::ArgonHash { .. })));
}

#[test]
fn validate_known_encoding() {
    let enc = "$argon2i$v=19$m=4096,t=3,p=4$YWJjZGVmZ2hpamtsbW5vcHFyc3R1dnd4eXo$BvBk2OaSofBHfbrUW61nHrWB/43xgfs/QJJ5DkMAd8I";
    assert_eq!(validate_password("foo", enc).unwrap(), true);
    assert_eq!(validate_password("fop", enc).unwrap(), false);
}

#[test]
fn token_forms_of_known_bytes() {
    let (plain, hashed) = token_from_bytes(b"hello");
    assert_eq!(plain, "aGVsbG8=");
    assert_eq!(hashed, "2cf24dba5fb0a30e26e83b2ac5b9e29e1b161e5c1fa7425e73043362938b9824");
}

#[test]
fn new_token_converts_to_its_hash() {
    let (plain, hashed) = new_token(&cfg()).unwrap();
    assert_eq!(plain.len(), 44);
    assert_eq!(hashed.len(), 64);
    assert_eq!(convert_plain_token(&plain).unwrap(), hashed);
}

#[test]
fn convert_known_token() {
    assert_eq!(
        convert_plain_token("aGVsbG8=").unwrap(),
        "2cf24dba5fb0a30e26e83b2ac5b9e29e1b161e5c1fa7425e73043362938b9824"
    );
}

#[test]
fn convert_refuses_non_base64() {
    match convert_plain_token("not base64!") {
        Err(Error::Unauthorized { msg, detail }) => {
            assert_eq!(msg, "Invalid token");
            assert!(detail.starts_with("Not base64 decodable: "));
        },
        _ => panic!("expected Unauthorized"),
    }
}

#[test]
fn internal_token_is_recognised() {
    assert!(is_internal_token("some_secret", &cfg()));
    assert!(!is_internal_token("some_secret ", &cfg()));
}

#[test]
fn auth_server_response_fields() {
    let r = AuthResponse::build_auth_server();
    assert_eq!(r.role.as_deref(), Some("auth-server"));
    assert!(r.user_id.is_none() && r.actor_id.is_none());
    assert!(r.allowed_roles.is_none() && r.cache_control.is_none());
}

#[test]
fn auth_start_internal() {
    match auth_start("some_secret", &cfg()) {
        AuthStep::Reply(Ok(r)) => assert_eq!(r.role.as_deref(), Some("auth-server")),
        _ => panic!("expected the auth-server answer"),
    }
}

#[test]
fn auth_start_looks_up_the_hash() {
    match auth_start("aGVsbG8=", &cfg()) {
        AuthStep::Lookup(h) => {
            assert_eq!(h, "2cf24dba5fb0a30e26e83b2ac5b9e29e1b161e5c1fa7425e73043362938b9824")
        },
        _ => panic!("expected a lookup"),
    }
}

#[test]
fn auth_start_refuses_bad_token() {
    match auth_start("@@@", &cfg()) {
        AuthStep::Reply(Err(e)) => assert_eq!(e.status(), 401),
        _ => panic!("expected a refusal"),
    }
}

#[test]
fn auth_finish_cases() {
    let found = AuthResponse {
        user_id: Some("u1".to_string()),
        actor_id: Some("a1".to_string()),
        role: None,
        allowed_roles: Some(vec!["user".to_string()]),
        cache_control: None,
    };
    let ok = auth_finish(Ok(Some(found))).unwrap();
    assert_eq!(ok.user_id.as_deref(), Some("u1"));
    match auth_finish(Ok(None)) {
        Err(Error::Unauthorized { msg, detail }) => {
            assert_eq!(msg, "Invalid token");
            assert_eq!(detail, "No such token found");
        },
        _ => panic!("expected Unauthorized"),
    }
    match auth_finish(Err(Error::GraphQLError { msg: "boom".to_string() })) {
        Err(Error::Unauthorized { msg, detail }) => {
            assert_eq!(msg, "Invalid token");
            assert_eq!(detail, "Lookup in hasura failed: GraphQL request failed boom");
        },
        _ => panic!("expected Unauthorized"),
    }
}

#[test]
fn error_texts_and_status() {
    assert_eq!(Error::GraphQLError { msg: "m".to_string() }.to_string(), "GraphQL request failed m");
    assert_eq!(Error::ReqwestError { msg: "m".to_string() }.to_string(), "Reqwest request failed m");
    let u = Error::Unauthorized { msg: "m".to_string(), detail: "d".to_string() };
    assert_eq!(u.to_string(), "Unauthorized: m [d]");
    assert_eq!(u.status(), 401);
    let a = Error::ArgonHash { msg: "m".to_string() };
    assert_eq!(a.to_string(), "Failed to hash password: m");
    assert_eq!(a.status(), 500);
    assert_eq!(encrypt("x".to_string()), "x");
}

#[test]
fn refusal_detail_names_the_decoder_error() {
    let expected = format!("Not base64 decodable: {}", base64::decode("!!!").unwrap_err());
    match convert_plain_token("!!!") {
        Err(Error::Unauthorized { msg, detail }) => {
            assert_eq!(msg, "Invalid token");
            assert_eq!(detail, expected);
        },
        _ => panic!("expected Unauthorized"),
    }
    match auth_start("!!!", &cfg()) {
        AuthStep::Reply(Err(Error::Unauthorized { msg, detail })) => {
            assert_eq!(msg, "Invalid token");
            assert_eq!(detail, expected);
        },
        _ => panic!("expected a refusal"),
    }
}

#[test]
fn token_text_shapes() {
    let (plain, hashed) = new_token(&cfg()).unwrap();
    assert!(plain.ends_with('=') && !plain[..43].contains('='));
    assert!(plain[..43].chars().all(|c| c.is_ascii_alphanumeric() || c == '+' || c == '/'));
    assert!(hashed.chars().all(|c| c.is_ascii_digit() || ('a'..='f').contains(&c)));
    assert_eq!(convert_plain_token("").unwrap(), "e3b0c44298fc1c149afbf4c8996fb92427ae41e4649b934ca495991b7852b855");
    let (p1, _) = token_from_bytes(b"a");
    assert_eq!(p1, "YQ==");
}

#[test]
fn other_password_refused() {
    let h = hash_password_with_salt("password", b"somesalt").unwrap();
    assert_eq!(validate_password("password1", &h).unwrap(), false);
    assert_eq!(validate_password("", &h).unwrap(), false);
}

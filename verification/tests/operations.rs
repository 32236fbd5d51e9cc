use auth_api::config::AppConfiguration;
use auth_api::operations::auth::add_token::AddToken;
use auth_api::operations::auth::fetch_auth_token::{
    FetchAuthToken, FetchAuthTokenAccessToken, FetchAuthTokenAccount, FetchAuthTokenData,
};
use auth_api::operations::auth::get_user_by_email::{
    GetUserByEmail, GetUserByEmailAuthAccount, GetUserByEmailData, UserEntry,
};
use auth_api::operations::auth::register_user::RegisterUser;
use auth_api::operations::auth::{role_name_list, RoleValue};
use auth_api::operations::GQLClient;
use auth_api::Error;

fn roles(names: &[&str]) -> Vec<RoleValue> {
    names.iter().map(|n| RoleValue { role_value: n.to_string() }).collect()
}

fn token(overwrite: Option<&str>, account_roles: &[&str], token_roles: &[&str]) -> FetchAuthTokenAccessToken {
    FetchAuthTokenAccessToken {
        overwrite_actor_id: overwrite.map(|s| s.to_string()),
        account: FetchAuthTokenAccount {
            id: "acc-1".to_string(),
            actor_id: "actor-1".to_string(),
            account_has_roles: roles(account_roles),
        },
        access_token_has_roles: roles(token_roles),
    }
}

fn client() -> GQLClient {
    GQLClient::get_auth_server_client(&AppConfiguration {
        hasura_endpoint: "http://backend/v1/graphql".to_string(),
        internal_token: "t".to_string(),
    })
}

#[test]
fn auth_server_client_settings() {
    let c = client();
    assert_eq!(c.endpoint, "http://backend/v1/graphql");
    assert_eq!(c.headers.len(), 2);
    assert_eq!(c.headers[0].0, "x-hasura-admin-secret");
    assert_eq!(c.headers[0].1, "p6vM/s18zDP2Z5zszd6+wWzrIeU=");
    assert_eq!(c.headers[1], ("x-hasura-role".to_string(), "auth-server".to_string()));
}

#[test]
fn exchange_failures() {
    let c = client();
    match c.send_failed("timeout") {
        Error::ReqwestError { msg } => assert_eq!(msg, "GraphQL Request failed: 'timeout'"),
        _ => panic!(),
    }
    match c.read_failed("bad json") {
        Error::ReqwestError { msg } => assert_eq!(msg, "GraphQL reading response failed: 'bad json'"),
        _ => panic!(),
    }
    assert!(c.check_status(true, "200 OK").is_ok());
    match c.check_status(false, "500 Internal Server Error") {
        Err(Error::GraphQLError { msg }) => assert_eq!(
            msg,
            "GraphQL query to http://backend/v1/graphql failed with 500 Internal Server Error"
        ),
        _ => panic!(),
    }
}

#[test]
fn response_data_cases() {
    let c = client();
    assert_eq!(c.response_data(None, Some(7)).unwrap(), 7);
    match c.response_data(Some("Some([oops])".to_string()), Some(7)) {
        Err(Error::GraphQLError { msg }) => {
            assert_eq!(msg, "GraphQL query to http://backend/v1/graphql failed with Some([oops])")
        },
        _ => panic!(),
    }
    match c.response_data::<u8>(None, None) {
        Err(Error::GraphQLError { msg }) => assert_eq!(
            msg,
            "GraphQL query to http://backend/v1/graphql failed returned no errors and an empty data section"
        ),
        _ => panic!(),
    }
}

#[test]
fn token_without_roles_grants_account_roles() {
    let data = FetchAuthTokenData { auth_access_token: vec![token(None, &["user", "admin"], &[])] };
    let r = FetchAuthToken::response(&data).unwrap();
    assert_eq!(r.user_id.as_deref(), Some("acc-1"));
    assert_eq!(r.actor_id.as_deref(), Some("actor-1"));
    assert!(r.role.is_none() && r.cache_control.is_none());
    assert_eq!(r.allowed_roles.unwrap(), vec!["user".to_string(), "admin".to_string()]);
}

#[test]
fn token_roles_are_limited_to_account_roles() {
    let data = FetchAuthTokenData {
        auth_access_token: vec![token(Some("other-actor"), &["user", "editor"], &["admin", "editor", "user"])],
    };
    let r = FetchAuthToken::response(&data).unwrap();
    assert_eq!(r.actor_id.as_deref(), Some("other-actor"));
    assert_eq!(r.allowed_roles.unwrap(), vec!["editor".to_string(), "user".to_string()]);
}

#[test]
fn token_with_no_held_roles_grants_none() {
    let data = FetchAuthTokenData { auth_access_token: vec![token(None, &["user"], &["admin"])] };
    let r = FetchAuthToken::response(&data).unwrap();
    assert_eq!(r.allowed_roles.unwrap(), Vec::<String>::new());
}

#[test]
fn unknown_token_gives_none() {
    let data = FetchAuthTokenData { auth_access_token: vec![] };
    assert!(FetchAuthToken::response(&data).is_none());
    assert_eq!(FetchAuthToken::variables("abc").token, "abc");
}

#[test]
fn role_names_in_order() {
    assert_eq!(role_name_list(&roles(&["b", "a"])), vec!["b".to_string(), "a".to_string()]);
}

fn account() -> GetUserByEmailAuthAccount {
    GetUserByEmailAuthAccount {
        id: "id-9".to_string(),
        email: "a@b.c".to_string(),
        password: "$argon2i$...".to_string(),
        account_has_roles: roles(&["user"]),
    }
}

#[test]
fn user_entry_from_account() {
    let u = UserEntry::from(&account());
    assert_eq!(u.id, "id-9");
    assert_eq!(u.email, "a@b.c");
    assert_eq!(u.password, "$argon2i$...");
    assert_eq!(u.roles, vec!["user".to_string()]);
}

#[test]
fn user_lookup() {
    assert_eq!(GetUserByEmail::variables("Foo@Bar.COM").email, "foo@bar.com");
    let found = GetUserByEmail::response(&GetUserByEmailData { auth_account: vec![account()] }).unwrap();
    assert_eq!(found.id, "id-9");
    match GetUserByEmail::response(&GetUserByEmailData { auth_account: vec![] }) {
        Err(Error::GraphQLError { msg }) => assert_eq!(msg, "Unable to find user from email"),
        _ => panic!(),
    }
}

#[test]
fn register_user_query() {
    let v = RegisterUser::variables("Ann@Example.ORG", "hash", "user", "tok");
    assert_eq!(v.email, "ann@example.org");
    assert_eq!((v.password.as_str(), v.role.as_str(), v.token.as_str()), ("hash", "user", "tok"));
    assert!(RegisterUser::outcome(true).is_ok());
    match RegisterUser::outcome(false) {
        Err(Error::GraphQLError { msg }) => assert_eq!(msg, "Unable to create user"),
        _ => panic!(),
    }
}

#[test]
fn add_token_query() {
    let v = AddToken::variables("acc", "tok");
    assert_eq!((v.account.as_str(), v.token.as_str()), ("acc", "tok"));
    assert!(AddToken::outcome(true).is_ok());
    match AddToken::outcome(false) {
        Err(Error::GraphQLError { msg }) => assert_eq!(msg, "Unable to create auth token"),
        _ => panic!(),
    }
}

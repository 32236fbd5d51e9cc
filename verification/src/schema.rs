//! The GraphQL API of the service: the `apiVersion` query and the
//! `register` and `login` mutations. Each mutation alternates its own
//! decisions with backend queries; the decisions stand here, one function per
//! stretch between two queries, and the caller makes the queries.

use vstd::prelude::*;
use vstd::string::StringSliceAdditionalSpecFns;

use crate::auth::{
    drawn_token, hash_password_drawing, issue_token, salted_hash, token_of_bytes, token_shape,
    validate_password, TOKEN_LEN,
};
use crate::config::AppConfiguration;
use crate::crypto::{
    argon2_accepts, argon2_default_prefix, argon2_encoded, argon2_verified, starts_with,
};
use crate::crypto::RandomDraws;
use crate::error::{encrypt, Error};
use crate::operations::auth::add_token::{AddToken, AddTokenVariables};
use crate::operations::auth::get_user_by_email::UserEntry;
use crate::operations::auth::register_user::{RegisterUser, RegisterUserVariables};
use crate::operations::auth::lowercase;

verus! {

/// A failed field of the API: the message the caller sees and the details
/// attached to it.
#[derive(Debug, Clone)]
pub struct FieldFailure {
    pub message: String,
    pub details: String,
}

/// `f` reports `e` under `message`.
pub open spec fn reports(f: FieldFailure, message: Seq<char>, e: Error) -> bool {
    f.message@ == message && f.details@ == e.spec_message()
}

/// The message of every failure of `login`.
pub open spec fn login_failed_text() -> Seq<char> {
    "User not available, or password not correct"@
}

/// The role a new account gets.
pub open spec fn default_role() -> Seq<char> {
    "user"@
}

fn failure(message: &str, e: &Error) -> (f: FieldFailure)
    ensures
        reports(f, message@, *e),
{
    FieldFailure { message: String::from_str(message), details: encrypt(e.to_string()) }
}

/// The version of the API.
pub fn api_version() -> (v: String)
    ensures
        v@ == "0.0.1"@,
{
    String::from_str("0.0.1")
}

/// What `register` has made before it creates the account: the plain access
/// token for the caller and the variables of the account-creating query.
pub struct Registration {
    pub plain: String,
    pub variables: RegisterUserVariables,
}

/// `r` is what the first stretch of `register` may answer for `email` and
/// `password`: the query creating the account (e-mail in lower case, role
/// `user`, the Argon2 hash of the password under a salt of `SALT_LEN` bytes,
/// the stored form of a token of `TOKEN_LEN` bytes) with the token's plain
/// text, or, only for a password too long to hash, the failure.
pub open spec fn registration_answer(email: Seq<char>, password: Seq<u8>, r: Result<
    Registration,
    FieldFailure,
>) -> bool {
    &&& r is Ok <==> password.len() <= 0xFFFF_FFFF
    &&& r matches Ok(reg) ==> {
        &&& reg.variables.email@ == lowercase(email)
        &&& reg.variables.role@ == default_role()
        &&& token_shape(reg.plain@, reg.variables.token@)
        &&& starts_with(reg.variables.password@, argon2_default_prefix())
        &&& exists|bytes: Seq<u8>|
            bytes.len() == TOKEN_LEN && #[trigger] token_of_bytes(
                bytes,
                reg.plain@,
                reg.variables.token@,
            )
        &&& exists|salt: Seq<u8>|
            salt.len() == crate::auth::SALT_LEN && reg.variables.password@
                == #[trigger] argon2_encoded(password, salt)
    }
    &&& r matches Err(f) ==> f.message@ == "Failed to hash user password"@ && f.details@
        == "Failed to hash password: "@ + "Password is too long"@
}

/// The first stretch of `register`, drawing from the random generator:
/// first the `TOKEN_LEN` bytes of the account's access token, then the
/// `SALT_LEN` bytes of the salt its password is hashed under. The token and
/// the hash are made of exactly those bytes.
pub fn register_prepare_drawing(email: &str, password: &str, draws: &mut RandomDraws) -> (r:
    Result<Registration, FieldFailure>)
    ensures
        registration_answer(email@, password.spec_bytes(), r),
        final(draws)@.len() == old(draws)@.len() + TOKEN_LEN + crate::auth::SALT_LEN,
        final(draws)@.subrange(0, old(draws)@.len() as int) == old(draws)@,
        r matches Ok(reg) ==> drawn_token(
            old(draws)@,
            final(draws)@.subrange(0, old(draws)@.len() + TOKEN_LEN),
            reg.plain@,
            reg.variables.token@,
        ),
        r matches Ok(reg) ==> salted_hash(
            password.spec_bytes(),
            final(draws)@.subrange(old(draws)@.len() + TOKEN_LEN, final(draws)@.len() as int),
            reg.variables.password@,
        ),
{
    let ghost d0 = draws@;
    let (plain, hashed) = issue_token(draws);
    let ghost d1 = draws@;
    let ghost bytes = d1.subrange(d0.len() as int, d1.len() as int);
    assert(token_of_bytes(bytes, plain@, hashed@));
    let hashed_pwd = match hash_password_drawing(password, draws) {
        Ok(h) => h,
        Err(e) => {
            proof {
                assert(draws@.subrange(0, d0.len() as int) =~= d0);
            }
            return Err(failure("Failed to hash user password", &e));
        },
    };
    let ghost d2 = draws@;
    let ghost salt = d2.subrange(d1.len() as int, d2.len() as int);
    let variables = RegisterUser::variables(email, hashed_pwd.as_str(), "user", hashed.as_str());
    let reg = Registration { plain, variables };
    proof {
        assert(d2.subrange(0, d0.len() as int) =~= d0);
        assert(d2.subrange(0, d0.len() + TOKEN_LEN) =~= d1);
        assert(token_of_bytes(bytes, reg.plain@, reg.variables.token@));
        assert(reg.variables.password@ == argon2_encoded(password.spec_bytes(), salt));
    }
    Ok(reg)
}

/// The first stretch of `register`: a new access token, the password hash,
/// and the query that creates the account (e-mail in lower case, role
/// `user`). Fails only when the password cannot be hashed.
pub fn register_prepare(email: &str, password: &str, cfg: &AppConfiguration) -> (r: Result<
    Registration,
    FieldFailure,
>)
    ensures
        registration_answer(email@, password.spec_bytes(), r),
{
    let mut draws = RandomDraws::new();
    register_prepare_drawing(email, password, &mut draws)
}

/// The last stretch of `register`, given the outcome of creating the
/// account: the plain access token, or the failure.
pub fn register_finish(plain: String, created: Result<(), Error>) -> (r: Result<
    String,
    FieldFailure,
>)
    ensures
        created is Ok ==> (r matches Ok(p) && p@ == plain@),
        created matches Err(e) ==> (r matches Err(f) && reports(
            f,
            "Failed to hash user password"@,
            e,
        )),
{
    match created {
        Ok(()) => Ok(plain),
        Err(e) => Err(failure("Failed to hash user password", &e)),
    }
}

/// What `login` has made once the password checked: the plain access token
/// for the caller and the variables of the token-storing query.
pub struct LoginGrant {
    pub plain: String,
    pub variables: AddTokenVariables,
}

/// `r` is what the middle stretch of `login` may answer for `password` and
/// the outcome `user` of looking the account up: every failure under one
/// message; a grant for the account with the stored form of a token of
/// `TOKEN_LEN` bytes when the password checks; and, for a hash made by
/// Argon2, a grant for the right password and a refusal of any other.
pub open spec fn login_answer(password: Seq<u8>, user: Result<UserEntry, Error>, r: Result<
    LoginGrant,
    FieldFailure,
>) -> bool {
    &&& user matches Err(e) ==> (r matches Err(f) && reports(f, login_failed_text(), e))
    &&& user matches Ok(u) ==> {
        let verdict = argon2_verified(u.password@, password);
        &&& verdict matches Err(t) ==> (r matches Err(f) && f.message@ == login_failed_text()
            && f.details@ == "Failed to hash password: "@ + t)
        &&& verdict matches Ok(false) ==> (r matches Err(f) && f.message@ == login_failed_text()
            && f.details@ == "No specific details here, just the wrong password"@)
        &&& verdict matches Ok(true) ==> (r matches Ok(g) && g.variables.account@ == u.id@
            && token_shape(g.plain@, g.variables.token@) && exists|bytes: Seq<u8>|
            bytes.len() == TOKEN_LEN && #[trigger] token_of_bytes(
                bytes,
                g.plain@,
                g.variables.token@,
            ))
        &&& forall|owner: Seq<u8>, salt: Seq<u8>|
            argon2_accepts(owner, salt) && #[trigger] argon2_encoded(owner, salt) == u.password@
                && argon2_accepts(password, salt) ==> (r is Ok <==> argon2_encoded(password, salt)
                == u.password@)
    }
}

/// The middle stretch of `login`, drawing from the random generator: a
/// granted token is made of the `TOKEN_LEN` bytes drawn in this call, and a
/// refused login draws nothing.
pub fn login_check_drawing(password: &str, user: Result<UserEntry, Error>, draws: &mut RandomDraws) -> (r:
    Result<LoginGrant, FieldFailure>)
    ensures
        login_answer(password.spec_bytes(), user, r),
        r matches Ok(g) ==> drawn_token(old(draws)@, final(draws)@, g.plain@, g.variables.token@),
        r is Err ==> final(draws)@ == old(draws)@,
{
    let user = match user {
        Ok(u) => u,
        Err(e) => {
            return Err(failure("User not available, or password not correct", &e));
        },
    };
    let ok = match validate_password(password, user.password.as_str()) {
        Ok(b) => b,
        Err(e) => {
            return Err(failure("User not available, or password not correct", &e));
        },
    };
    if ok {
        let ghost d0 = draws@;
        let (plain, hashed) = issue_token(draws);
        let ghost bytes = draws@.subrange(d0.len() as int, draws@.len() as int);
        let variables = AddToken::variables(user.id.as_str(), hashed.as_str());
        let grant = LoginGrant { plain, variables };
        assert(token_of_bytes(bytes, grant.plain@, grant.variables.token@));
        Ok(grant)
    } else {
        let details = encrypt(String::from_str("No specific details here, just the wrong password"));
        Err(
            FieldFailure {
                message: String::from_str("User not available, or password not correct"),
                details,
            },
        )
    }
}

/// The middle stretch of `login`, given the outcome of looking the account
/// up: the password is checked against the account's hash; if it matches, a
/// new access token is made for the account. Every failure is reported
/// under the same message. For a hash made by Argon2, the right password
/// always gets a token and any other password is refused.
pub fn login_check(password: &str, user: Result<UserEntry, Error>, cfg: &AppConfiguration) -> (r:
    Result<LoginGrant, FieldFailure>)
    ensures
        login_answer(password.spec_bytes(), user, r),
{
    let mut draws = RandomDraws::new();
    login_check_drawing(password, user, &mut draws)
}

/// The last stretch of `login`, given the outcome of storing the token: the
/// plain access token, or the failure.
pub fn login_finish(plain: String, stored: Result<(), Error>) -> (r: Result<String, FieldFailure>)
    ensures
        stored is Ok ==> (r matches Ok(p) && p@ == plain@),
        stored matches Err(e) ==> (r matches Err(f) && reports(f, login_failed_text(), e)),
{
    match stored {
        Ok(()) => Ok(plain),
        Err(e) => Err(failure("User not available, or password not correct", &e)),
    }
}

} // verus!

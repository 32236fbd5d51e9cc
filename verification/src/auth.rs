//! Passwords, access tokens and the `/auth` check.
//!
//! A password is stored as its encoded Argon2 hash under a fresh random salt.
//! An access token is 32 random bytes: the caller gets their Base64 text,
//! the backend stores the hex SHA-256 digest of the bytes, and a presented
//! token is checked by decoding it and digesting the bytes again.

use vstd::prelude::*;
use vstd::string::StringSliceAdditionalSpecFns;
use vstd::utf8::encode_utf8;

use crate::config::AppConfiguration;
use crate::crypto::{
    argon2_accepts, argon2_default_prefix, argon2_encoded, argon2_hash_encoded,
    argon2_length_error, argon2_verified, argon2_verify_encoded, base64_decode, base64_decoded,
    base64_encode, base64_encoded, base64_padding, is_base64_symbol, is_lower_hex, random_byte,
    RandomDraws,
    sha256_digest_hex, sha256_hex, starts_with,
};
use crate::error::Error;

verus! {

/// Number of random salt bytes a password is hashed with.
pub const SALT_LEN: usize = 32;

/// Number of random bytes in an access token.
pub const TOKEN_LEN: usize = 32;

/// A token taken from an `Authorization: Bearer ...` header.
pub struct BearerToken<'r>(pub &'r str);

/// Why a request carries no bearer token.
#[derive(Debug, Clone, Copy, PartialEq, Eq, Structural)]
pub enum BearerTokenError {
    Missing,
}

impl<'r> BearerToken<'r> {
    /// The token of a request, from its `authorization` header, if any.
    /// A missing header and one that is not of the bearer form both fail
    /// (the request is then answered with status 401).
    pub fn from_header(header: Option<&'r str>) -> (r: core::result::Result<
        BearerToken<'r>,
        BearerTokenError,
    >)
        ensures
            r is Err <==> (header is None || !crate::bearer::has_token(header->0@)),
            r matches Ok(t) ==> crate::bearer::is_token_of(header->0@, t.0@),
    {
        match header {
            None => Err(BearerTokenError::Missing),
            Some(key) => match crate::bearer::extract(key) {
                Some(token) => Ok(BearerToken(token)),
                None => Err(BearerTokenError::Missing),
            },
        }
    }
}

/// The session variables that the `/auth` check answers the GraphQL engine
/// with (`X-Hasura-User-Id`, `X-Hasura-Actor-Id`, `X-Hasura-Role`,
/// `X-Hasura-Allowed-Roles`, `Cache-Control`); absent ones are left out.
#[derive(Debug, Clone)]
pub struct AuthResponse {
    pub user_id: Option<String>,
    pub actor_id: Option<String>,
    pub role: Option<String>,
    pub allowed_roles: Option<Vec<String>>,
    pub cache_control: Option<String>,
}

/// `r` is the answer for an internal caller: the role `auth-server` alone.
pub open spec fn is_auth_server_response(r: AuthResponse) -> bool {
    &&& r.user_id is None
    &&& r.actor_id is None
    &&& r.role matches Some(role) && role@ == "auth-server"@
    &&& r.allowed_roles is None
    &&& r.cache_control is None
}

impl AuthResponse {
    /// The answer for an internal caller.
    pub fn build_auth_server() -> (r: Self)
        ensures
            is_auth_server_response(r),
    {
        AuthResponse {
            user_id: None,
            actor_id: None,
            role: Some(String::from_str("auth-server")),
            allowed_roles: None,
            cache_control: None,
        }
    }
}

/// Whether `token` is the internal token of the configuration.
pub fn is_internal_token(token: &str, cfg: &AppConfiguration) -> (b: bool)
    ensures
        b == (token@ == cfg.internal_token@),
{
    let t = String::from_str(token);
    t == cfg.internal_token
}

/// `hash` is the Argon2 encoding of the password under `salt`, and names
/// that salt: no other salt gives it.
pub open spec fn salted_hash(password: Seq<u8>, salt: Seq<u8>, hash: Seq<char>) -> bool {
    &&& hash == argon2_encoded(password, salt)
    &&& forall|other: Seq<u8>, other_salt: Seq<u8>|
        argon2_accepts(other, other_salt) && #[trigger] argon2_encoded(other, other_salt) == hash
            ==> other_salt == salt
}

/// Hashes a password under the given salt.
/// Fails, with an `ArgonHash` error naming the refused length, exactly when
/// Argon2 refuses the lengths.
pub fn hash_password_with_salt(password: &str, salt: &[u8]) -> (r: Result<String, Error>)
    ensures
        r is Ok <==> argon2_accepts(password.spec_bytes(), salt@),
        r matches Ok(h) ==> salted_hash(password.spec_bytes(), salt@, h@) && starts_with(
            h@,
            argon2_default_prefix(),
        ),
        r matches Err(e) ==> (e matches Error::ArgonHash { msg } && msg@ == argon2_length_error(
            password.spec_bytes(),
            salt@,
        )),
{
    match argon2_hash_encoded(password.as_bytes(), salt) {
        Ok(hash) => Ok(hash),
        Err(text) => Err(Error::ArgonHash { msg: text }),
    }
}

/// `after` is the record `before` followed by the bytes of `drawn`.
pub open spec fn draws_extended(before: Seq<u8>, after: Seq<u8>, drawn: Seq<u8>) -> bool {
    after == before + drawn
}

/// Draws `n` bytes from the random generator, in order.
fn draw_bytes(draws: &mut RandomDraws, n: usize) -> (v: Vec<u8>)
    ensures
        v@.len() == n,
        draws_extended(old(draws)@, final(draws)@, v@),
{
    let mut v: Vec<u8> = Vec::new();
    let ghost start = draws@;
    for _k in 0..n
        invariant
            v@.len() == _k,
            draws@ == start + v@,
    {
        let b = random_byte(draws);
        v.push(b);
    }
    v
}

/// Hashes a password under a salt of `SALT_LEN` bytes drawn from the random
/// generator: the hash is made of the very bytes this call drew.
pub fn hash_password_drawing(password: &str, draws: &mut RandomDraws) -> (r: Result<String, Error>)
    ensures
        final(draws)@.len() == old(draws)@.len() + SALT_LEN,
        draws_extended(
            old(draws)@,
            final(draws)@,
            final(draws)@.subrange(old(draws)@.len() as int, final(draws)@.len() as int),
        ),
        r is Ok <==> password.spec_bytes().len() <= 0xFFFF_FFFF,
        r matches Ok(h) ==> starts_with(h@, argon2_default_prefix()) && salted_hash(
            password.spec_bytes(),
            final(draws)@.subrange(old(draws)@.len() as int, final(draws)@.len() as int),
            h@,
        ),
        r matches Err(e) ==> (e matches Error::ArgonHash { msg } && msg@
            == "Password is too long"@),
{
    let ghost before = draws@;
    let salt = draw_bytes(draws, SALT_LEN);
    assert(draws@.subrange(before.len() as int, draws@.len() as int) =~= salt@);
    hash_password_with_salt(password, salt.as_slice())
}

/// Hashes a password under a fresh random salt of `SALT_LEN` bytes.
/// Fails only for a password of more than 2^32 - 1 bytes.
pub fn hash_password(password: &str) -> (r: Result<String, Error>)
    ensures
        r is Ok <==> password.spec_bytes().len() <= 0xFFFF_FFFF,
        r matches Ok(h) ==> starts_with(h@, argon2_default_prefix()) && exists|salt: Seq<u8>|
            salt.len() == SALT_LEN && h@ == #[trigger] argon2_encoded(password.spec_bytes(), salt),
        r matches Err(e) ==> (e matches Error::ArgonHash { msg } && msg@
            == "Password is too long"@),
{
    let mut draws = RandomDraws::new();
    let r = hash_password_drawing(password, &mut draws);
    let ghost salt = draws@.subrange(0, draws@.len() as int);
    assert(r matches Ok(h) ==> h@ == argon2_encoded(password.spec_bytes(), salt));
    r
}

/// Two hashings under different salts never give the same stored hash,
/// whatever the passwords: a hash identifies the salt it was made under.
pub proof fn lemma_hashes_under_different_salts_differ(
    password1: Seq<u8>,
    salt1: Seq<u8>,
    hash1: Seq<char>,
    password2: Seq<u8>,
    salt2: Seq<u8>,
    hash2: Seq<char>,
)
    requires
        argon2_accepts(password1, salt1),
        argon2_accepts(password2, salt2),
        salted_hash(password1, salt1, hash1),
        salted_hash(password2, salt2, hash2),
        salt1 != salt2,
    ensures
        hash1 != hash2,
{
    if hash1 == hash2 {
        assert(argon2_encoded(password2, salt2) == hash1);
    }
}

/// `r` is what checking the password (as bytes) against the encoded hash
/// `hashed` gives: the Argon2 verdict, or an `ArgonHash` error with the text
/// of Argon2's error; for a hash that Argon2 made of some password under some
/// salt, a password of an accepted length is accepted exactly when it
/// hashes to the same encoding under that salt.
pub open spec fn password_check(password: Seq<u8>, hashed: Seq<char>, r: Result<bool, Error>) -> bool {
    &&& r matches Ok(b) ==> argon2_verified(hashed, password) == Ok::<bool, Seq<char>>(b)
    &&& r matches Err(e) ==> (e matches Error::ArgonHash { msg } && argon2_verified(
        hashed,
        password,
    ) == Err::<bool, Seq<char>>(msg@))
    &&& forall|owner: Seq<u8>, salt: Seq<u8>|
        argon2_accepts(owner, salt) && #[trigger] argon2_encoded(owner, salt) == hashed
            && argon2_accepts(password, salt) ==> (r matches Ok(b) && b == (argon2_encoded(
            password,
            salt,
        ) == hashed))
}

/// Checks a password against its stored encoded hash.
pub fn validate_password(password: &str, hashed_password: &str) -> (r: Result<bool, Error>)
    ensures
        password_check(password.spec_bytes(), hashed_password@, r),
{
    match argon2_verify_encoded(hashed_password, password.as_bytes()) {
        Ok(b) => Ok(b),
        Err(text) => Err(Error::ArgonHash { msg: text }),
    }
}

/// A password checks against every hash made of it.
pub proof fn lemma_password_checks_against_its_hash(
    password: Seq<u8>,
    salt: Seq<u8>,
    r: Result<bool, Error>,
)
    requires
        argon2_accepts(password, salt),
        password_check(password, argon2_encoded(password, salt), r),
    ensures
        r matches Ok(true),
{
    assert(argon2_accepts(password, salt) && argon2_encoded(password, salt) == argon2_encoded(
        password,
        salt,
    ));
}

/// Any other password, one that does not hash to the same encoding under the
/// same salt, is refused.
pub proof fn lemma_other_password_refused(
    owner: Seq<u8>,
    password: Seq<u8>,
    salt: Seq<u8>,
    r: Result<bool, Error>,
)
    requires
        argon2_accepts(owner, salt),
        argon2_accepts(password, salt),
        argon2_encoded(password, salt) != argon2_encoded(owner, salt),
        password_check(password, argon2_encoded(owner, salt), r),
    ensures
        r matches Ok(false),
{
    assert(argon2_accepts(owner, salt) && argon2_encoded(owner, salt) == argon2_encoded(
        owner,
        salt,
    ));
}

/// `plain` and `hashed` are the two forms of the access token made of `bytes`.
pub open spec fn token_of_bytes(bytes: Seq<u8>, plain: Seq<char>, hashed: Seq<char>) -> bool {
    &&& plain == base64_encoded(bytes)
    &&& hashed == sha256_hex(bytes)
}

/// The two forms of the access token made of `binary`: its Base64 text, which
/// the caller gets, and the hex SHA-256 digest of the bytes, which is stored.
pub fn token_from_bytes(binary: &[u8]) -> (r: (String, String))
    ensures
        token_of_bytes(binary@, r.0@, r.1@),
        forall|other: Seq<u8>| #[trigger] base64_encoded(other) == r.0@ ==> other == binary@,
        r.0@.len() == 4 * ((binary@.len() + 2) / 3),
        forall|k: int|
            0 <= k < r.0@.len() - base64_padding(binary@.len()) ==> is_base64_symbol(
                #[trigger] r.0@[k],
            ),
        forall|k: int|
            r.0@.len() - base64_padding(binary@.len()) <= k < r.0@.len() ==> #[trigger] r.0@[k]
                == '=',
        r.1@.len() == 64,
        forall|k: int| 0 <= k < r.1@.len() ==> is_lower_hex(#[trigger] r.1@[k]),
{
    let plain_text = base64_encode(binary);
    let hashed = sha256_digest_hex(binary);
    (plain_text, hashed)
}

/// The shape of the two forms of a token of `TOKEN_LEN` bytes: 43 Base64
/// symbols and one `=`, and 64 lower-case hexadecimal digits.
pub open spec fn token_shape(plain: Seq<char>, hashed: Seq<char>) -> bool {
    &&& plain.len() == 44
    &&& plain[43] == '='
    &&& forall|k: int| 0 <= k < 43 ==> is_base64_symbol(#[trigger] plain[k])
    &&& hashed.len() == 64
    &&& forall|k: int| 0 <= k < 64 ==> is_lower_hex(#[trigger] hashed[k])
}

/// `plain` and `hashed` are the token made of the `TOKEN_LEN` bytes by which
/// the record of draws grew from `before` to `after`; its plain text is the
/// text of those bytes and of no others.
pub open spec fn drawn_token(before: Seq<u8>, after: Seq<u8>, plain: Seq<char>, hashed: Seq<
    char,
>) -> bool {
    let bytes = after.subrange(before.len() as int, after.len() as int);
    &&& after.len() == before.len() + TOKEN_LEN
    &&& draws_extended(before, after, bytes)
    &&& token_of_bytes(bytes, plain, hashed)
    &&& forall|other: Seq<u8>| #[trigger] base64_encoded(other) == plain ==> other == bytes
}

/// Issues an access token made of `TOKEN_LEN` bytes drawn from the random
/// generator in this call.
pub fn issue_token(draws: &mut RandomDraws) -> (t: (String, String))
    ensures
        drawn_token(old(draws)@, final(draws)@, t.0@, t.1@),
        token_shape(t.0@, t.1@),
{
    let ghost before = draws@;
    let binary = draw_bytes(draws, TOKEN_LEN);
    let t = token_from_bytes(binary.as_slice());
    assert(draws@.subrange(before.len() as int, draws@.len() as int) =~= binary@);
    assert(base64_padding(32) == 1);
    assert(t.0@.len() == 44);
    assert(token_shape(t.0@, t.1@));
    t
}

/// Two tokens issued from different draws of the generator have different
/// plain texts: a token identifies the bytes it was drawn from.
pub proof fn lemma_tokens_of_different_draws_differ(
    before1: Seq<u8>,
    after1: Seq<u8>,
    plain1: Seq<char>,
    hashed1: Seq<char>,
    before2: Seq<u8>,
    after2: Seq<u8>,
    plain2: Seq<char>,
    hashed2: Seq<char>,
)
    requires
        drawn_token(before1, after1, plain1, hashed1),
        drawn_token(before2, after2, plain2, hashed2),
        after1.subrange(before1.len() as int, after1.len() as int) != after2.subrange(
            before2.len() as int,
            after2.len() as int,
        ),
    ensures
        plain1 != plain2,
{
    let b1 = after1.subrange(before1.len() as int, after1.len() as int);
    let b2 = after2.subrange(before2.len() as int, after2.len() as int);
    if plain1 == plain2 {
        assert(base64_encoded(b2) == plain1);
    }
}

/// Tokens issued one after the other from one record of draws are made of
/// consecutive, separate stretches of the generator's bytes.
pub proof fn lemma_successive_tokens_use_successive_draws(
    d0: Seq<u8>,
    d1: Seq<u8>,
    d2: Seq<u8>,
    plain1: Seq<char>,
    hashed1: Seq<char>,
    plain2: Seq<char>,
    hashed2: Seq<char>,
)
    requires
        drawn_token(d0, d1, plain1, hashed1),
        drawn_token(d1, d2, plain2, hashed2),
    ensures
        d2.len() == d0.len() + 2 * TOKEN_LEN,
        d2.subrange(0, d0.len() as int) == d0,
        token_of_bytes(d2.subrange(d0.len() as int, d0.len() + TOKEN_LEN), plain1, hashed1),
        token_of_bytes(d2.subrange(d0.len() + TOKEN_LEN, d2.len() as int), plain2, hashed2),
{
    assert(d2.subrange(d0.len() as int, d0.len() + TOKEN_LEN) =~= d1.subrange(
        d0.len() as int,
        d1.len() as int,
    ));
    assert(d2.subrange(d0.len() + TOKEN_LEN, d2.len() as int) =~= d2.subrange(
        d1.len() as int,
        d2.len() as int,
    ));
    assert(d2.subrange(0, d0.len() as int) =~= d0);
}

/// A new access token of `TOKEN_LEN` random bytes, as (plain text, stored
/// hash). It never fails.
pub fn new_token(_cfg: &AppConfiguration) -> (r: Result<(String, String), Error>)
    ensures
        r is Ok,
        r matches Ok(t) ==> token_shape(t.0@, t.1@) && exists|bytes: Seq<u8>|
            bytes.len() == TOKEN_LEN && #[trigger] token_of_bytes(bytes, t.0@, t.1@),
{
    let mut draws = RandomDraws::new();
    let t = issue_token(&mut draws);
    let ghost bytes = draws@.subrange(0, draws@.len() as int);
    assert(token_of_bytes(bytes, t.0@, t.1@));
    let r: Result<(String, String), Error> = Ok(t);
    assert(r matches Ok(t) && token_of_bytes(bytes, t.0@, t.1@));
    r
}

/// `r` is what converting the presented token `token` to its stored form
/// gives: the hex SHA-256 digest (64 lower-case hexadecimal digits) of the
/// bytes its Base64 text decodes to, or `Unauthorized` ("Invalid token",
/// "Not base64 decodable: " and the decoder's error text) when it does not
/// decode; the plain text of a token made of some bytes converts to the
/// digest of the same bytes.
pub open spec fn token_conversion(token: Seq<char>, r: Result<String, Error>) -> bool {
    let text = encode_utf8(token);
    &&& r is Ok <==> base64_decoded(text) is Ok
    &&& r matches Ok(h) ==> {
        &&& h@ == sha256_hex(base64_decoded(text)->Ok_0)
        &&& h@.len() == 64
        &&& forall|k: int| 0 <= k < h@.len() ==> is_lower_hex(#[trigger] h@[k])
    }
    &&& r matches Err(e) ==> is_refusal(e, "Not base64 decodable: "@ + base64_decoded(text)->Err_0)
    &&& forall|bytes: Seq<u8>| #[trigger]
        encode_utf8(base64_encoded(bytes)) == text ==> (r matches Ok(h) && h@ == sha256_hex(
            bytes,
        ))
}

/// `e` is the refusal of an `/auth` request: `Unauthorized` with message
/// "Invalid token" and the given detail.
pub open spec fn is_refusal(e: Error, detail: Seq<char>) -> bool {
    e matches Error::Unauthorized { msg, detail: d } && msg@ == "Invalid token"@ && d@ == detail
}

/// The stored form of a presented token.
pub fn convert_plain_token(token: &str) -> (r: Result<String, Error>)
    ensures
        token_conversion(token@, r),
{
    match base64_decode(token.as_bytes()) {
        Ok(binary) => Ok(sha256_digest_hex(binary.as_slice())),
        Err(text) => {
            let mut detail = String::from_str("Not base64 decodable: ");
            detail.append(text.as_str());
            Err(Error::Unauthorized { msg: String::from_str("Invalid token"), detail })
        },
    }
}

/// The plain text of an issued token converts to the stored form issued with it.
pub proof fn lemma_issued_token_converts_to_its_hash(
    bytes: Seq<u8>,
    plain: Seq<char>,
    hashed: Seq<char>,
    r: Result<String, Error>,
)
    requires
        token_of_bytes(bytes, plain, hashed),
        token_conversion(plain, r),
    ensures
        r matches Ok(h) && h@ == hashed,
{
    assert(encode_utf8(base64_encoded(bytes)) == encode_utf8(plain));
}

/// What the `/auth` check does first.
pub enum AuthStep {
    /// Answer right away.
    Reply(Result<AuthResponse, Error>),
    /// Look up the stored token of this hash in the backend.
    Lookup(String),
}

/// The first step of the `/auth` check for a bearer token: the internal token
/// is answered as the `auth-server` role; any other token is converted to its
/// stored form and looked up, or refused as `Unauthorized` if it does not
/// decode.
pub fn auth_start(token: &str, cfg: &AppConfiguration) -> (step: AuthStep)
    ensures
        token@ == cfg.internal_token@ ==> (step matches AuthStep::Reply(Ok(resp))
            && is_auth_server_response(resp)),
        token@ != cfg.internal_token@ ==> {
            &&& step is Lookup <==> base64_decoded(encode_utf8(token@)) is Ok
            &&& step matches AuthStep::Lookup(h) ==> token_conversion(
                token@,
                Ok::<String, Error>(h),
            )
            &&& step matches AuthStep::Reply(res) ==> (res matches Err(e) && is_refusal(
                e,
                "Not base64 decodable: "@ + base64_decoded(encode_utf8(token@))->Err_0,
            ))
        },
{
    if is_internal_token(token, cfg) {
        AuthStep::Reply(Ok(AuthResponse::build_auth_server()))
    } else {
        match convert_plain_token(token) {
            Ok(hashed) => AuthStep::Lookup(hashed),
            Err(e) => AuthStep::Reply(Err(e)),
        }
    }
}

/// The last step of the `/auth` check, given what the lookup of the token
/// gave: the session variables of the token, or `Unauthorized` when the
/// lookup failed or found no such token.
pub fn auth_finish(lookup: Result<Option<AuthResponse>, Error>) -> (r: Result<AuthResponse, Error>)
    ensures
        lookup matches Ok(Some(resp)) ==> r == Ok::<AuthResponse, Error>(resp),
        lookup matches Ok(None) ==> (r matches Err(f) && is_refusal(f, "No such token found"@)),
        lookup matches Err(e) ==> (r matches Err(f) && is_refusal(
            f,
            "Lookup in hasura failed: "@ + e.spec_message(),
        )),
{
    match lookup {
        Ok(Some(response)) => Ok(response),
        Ok(None) => Err(
            Error::Unauthorized {
                msg: String::from_str("Invalid token"),
                detail: String::from_str("No such token found"),
            },
        ),
        Err(e) => {
            let mut detail = String::from_str("Lookup in hasura failed: ");
            detail.append(e.to_string().as_str());
            Err(Error::Unauthorized { msg: String::from_str("Invalid token"), detail })
        },
    }
}

} // verus!

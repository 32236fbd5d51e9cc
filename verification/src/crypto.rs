//! The cryptographic primitives the service relies on: Argon2 password
//! hashing (`rust-argon2`), Base64 (`base64`), SHA-256 (`sha256`) and random
//! bytes (`rand`). Each is a trusted item whose contract says what the
//! outside crate's source shows; nothing here is proved.

use vstd::prelude::*;
use vstd::utf8::encode_utf8;

verus! {

/// The encoded Argon2 hash (`$argon2i$v=19$m=4096,t=3,p=1$salt$hash`) that
/// `argon2::hash_encoded` computes, under the default configuration, for a
/// password and a salt.
pub uninterp spec fn argon2_encoded(password: Seq<u8>, salt: Seq<u8>) -> Seq<char>;

/// What `argon2::verify_encoded` answers for an encoded hash and a password:
/// whether the password hashes to the encoded hash, or the `Display` text of
/// its error where it fails (the encoding does not parse, or its parameters
/// or the password are out of range).
pub uninterp spec fn argon2_verified(encoded: Seq<char>, password: Seq<u8>) -> Result<
    bool,
    Seq<char>,
>;

/// The standard, padded Base64 text of some bytes.
pub uninterp spec fn base64_encoded(data: Seq<u8>) -> Seq<char>;

/// What standard, padded Base64 text decodes to: the bytes, or the
/// `Display` text of the decoding error.
pub uninterp spec fn base64_decoded(text: Seq<u8>) -> Result<Seq<u8>, Seq<char>>;

/// The SHA-256 digest of some bytes, written in lower-case hexadecimal.
pub uninterp spec fn sha256_hex(data: Seq<u8>) -> Seq<char>;

/// Lengths that the default Argon2 configuration accepts: a password of at
/// most 2^32 - 1 bytes and a salt of 8 to 2^32 - 1 bytes.
pub open spec fn argon2_accepts(password: Seq<u8>, salt: Seq<u8>) -> bool {
    &&& password.len() <= 0xFFFF_FFFF
    &&& 8 <= salt.len() <= 0xFFFF_FFFF
}

/// The error text with which the default Argon2 configuration refuses the
/// lengths of a password and a salt (the password is checked first).
pub open spec fn argon2_length_error(password: Seq<u8>, salt: Seq<u8>) -> Seq<char> {
    if password.len() > 0xFFFF_FFFF {
        "Password is too long"@
    } else if salt.len() < 8 {
        "Salt is too short"@
    } else {
        "Salt is too long"@
    }
}

/// How every hash encoded under the default configuration begins.
pub open spec fn argon2_default_prefix() -> Seq<char> {
    "$argon2i$v=19$m=4096,t=3,p=1$"@
}

/// `prefix` is the beginning of `s`.
pub open spec fn starts_with(s: Seq<char>, prefix: Seq<char>) -> bool {
    prefix.len() <= s.len() && s.subrange(0, prefix.len() as int) == prefix
}

/// A character of the standard Base64 alphabet.
pub open spec fn is_base64_symbol(c: char) -> bool {
    ||| ('A' <= c && c <= 'Z')
    ||| ('a' <= c && c <= 'z')
    ||| ('0' <= c && c <= '9')
    ||| c == '+'
    ||| c == '/'
}

/// Number of `=` that pad the Base64 text of `n` bytes.
pub open spec fn base64_padding(n: nat) -> nat {
    if n % 3 == 0 {
        0
    } else {
        (3 - n % 3) as nat
    }
}

/// A lower-case hexadecimal digit.
pub open spec fn is_lower_hex(c: char) -> bool {
    ('0' <= c && c <= '9') || ('a' <= c && c <= 'f')
}

/// `argon2::hash_encoded(password, salt, &Config::default())`.
/// Claimed: it fails exactly when `Context::new` rejects the lengths (the
/// default configuration's other parameters are all in range), with the
/// `Display` text of that error; otherwise it returns the named encoded hash,
/// a function of password and salt alone, which `encode_string` begins with
/// the variant, version and parameters of the default configuration, and
/// which holds the salt (its Base64 text between `$` delimiters, which
/// `decode_string` reads back), so no other salt gives the same encoding.
#[verifier::external_body]
pub(crate) fn argon2_hash_encoded(password: &[u8], salt: &[u8]) -> (r: Result<String, String>)
    ensures
        r is Ok <==> argon2_accepts(password@, salt@),
        r matches Ok(h) ==> h@ == argon2_encoded(password@, salt@),
        r matches Ok(h) ==> starts_with(h@, argon2_default_prefix()),
        r matches Ok(h) ==> forall|other: Seq<u8>, other_salt: Seq<u8>|
            argon2_accepts(other, other_salt) && #[trigger] argon2_encoded(other, other_salt)
                == h@ ==> other_salt == salt@,
        r matches Err(m) ==> m@ == argon2_length_error(password@, salt@),
{
    match argon2::hash_encoded(password, salt, &argon2::Config::default()) {
        Ok(h) => Ok(h),
        Err(e) => Err(format!("{}", e)),
    }
}

/// `argon2::verify_encoded(encoded, password)`.
/// Claimed: the result is the named one (an error handed on as its
/// `Display` text); and for an encoding that `hash_encoded` produced for
/// some password under some salt, a password of an accepted length gets
/// `Ok(b)`, where `b` tells whether `hash_encoded` gives the same encoding
/// for it under that salt (the parameters and salt parse back, the hash is
/// recomputed the same way and compared with the stored one).
/// Left unsaid: an encoding that asks for more memory or time than the
/// machine has makes the call abort or not return.
#[verifier::external_body]
pub(crate) fn argon2_verify_encoded(encoded: &str, password: &[u8]) -> (r: Result<bool, String>)
    ensures
        r matches Ok(b) ==> (argon2_verified(encoded@, password@) matches Ok(v) && v == b),
        r matches Err(m) ==> (argon2_verified(encoded@, password@) matches Err(t) && t == m@),
        forall|owner: Seq<u8>, salt: Seq<u8>|
            argon2_accepts(owner, salt) && #[trigger] argon2_encoded(owner, salt) == encoded@
                && argon2_accepts(password@, salt) ==> r is Ok && r->Ok_0 == (argon2_encoded(
                password@,
                salt,
            ) == encoded@),
{
    match argon2::verify_encoded(encoded, password) {
        Ok(b) => Ok(b),
        Err(e) => Err(format!("{}", e)),
    }
}

/// `base64::encode(data)`: the named standard Base64 text of the bytes;
/// `encode_with_padding` writes four symbols of the standard alphabet for
/// every three bytes begun, the last group padded with `=`.
/// Distinct bytes have distinct texts (each text decodes back to its bytes).
#[verifier::external_body]
pub(crate) fn base64_encode(data: &[u8]) -> (text: String)
    ensures
        text@ == base64_encoded(data@),
        forall|other: Seq<u8>| #[trigger] base64_encoded(other) == text@ ==> other == data@,
        text@.len() == 4 * ((data@.len() + 2) / 3),
        forall|k: int|
            0 <= k < text@.len() - base64_padding(data@.len()) ==> is_base64_symbol(
                #[trigger] text@[k],
            ),
        forall|k: int|
            text@.len() - base64_padding(data@.len()) <= k < text@.len() ==> #[trigger] text@[k]
                == '=',
{
    base64::encode(data)
}

/// `base64::decode(text)`.
/// Claimed: the result is the named one (an error handed on as its
/// `Display` text); and the text that `encode` gives for some bytes decodes
/// back to those bytes.
#[verifier::external_body]
pub(crate) fn base64_decode(text: &[u8]) -> (r: Result<Vec<u8>, String>)
    ensures
        r matches Ok(v) ==> (base64_decoded(text@) matches Ok(d) && d == v@),
        r matches Err(m) ==> (base64_decoded(text@) matches Err(t) && t == m@),
        forall|data: Seq<u8>|
            #[trigger] encode_utf8(base64_encoded(data)) == text@ ==> r is Ok && r->Ok_0@ == data,
{
    match base64::decode(text) {
        Ok(v) => Ok(v),
        Err(e) => Err(format!("{}", e)),
    }
}

/// `sha256::digest_bytes(data)`: the named digest, hex-encoded (`hex::encode`
/// of the 32 digest bytes, so 64 lower-case hexadecimal digits).
#[verifier::external_body]
#[allow(deprecated)]
pub(crate) fn sha256_digest_hex(data: &[u8]) -> (digest: String)
    ensures
        digest@ == sha256_hex(data@),
        digest@.len() == 64,
        forall|k: int| 0 <= k < digest@.len() ==> is_lower_hex(#[trigger] digest@[k]),
{
    sha256::digest_bytes(data)
}

/// The record of the bytes that the random generator has given, in order.
/// It exists only in proofs: only `random_byte` adds to it, so a byte in it
/// is a byte that the generator gave.
pub struct RandomDraws {
    drawn: Ghost<Seq<u8>>,
}

impl View for RandomDraws {
    type V = Seq<u8>;

    closed spec fn view(&self) -> Seq<u8> {
        self.drawn@
    }
}

impl RandomDraws {
    /// A record of no draws yet.
    pub fn new() -> (d: Self)
        ensures
            d@ == Seq::<u8>::empty(),
    {
        RandomDraws { drawn: Ghost(Seq::empty()) }
    }
}

/// `rand::random::<u8>()`: a byte from the thread-local generator, appended
/// to the record of draws. Nothing is claimed of its value.
#[verifier::external_body]
pub(crate) fn random_byte(draws: &mut RandomDraws) -> (b: u8)
    ensures
        final(draws)@ == old(draws)@.push(b),
{
    rand::random::<u8>()
}

} // verus!

//! The authentication queries against the GraphQL backend: what each sends
//! and what is made of its answer.

use vstd::prelude::*;

pub mod add_token;
pub mod fetch_auth_token;
pub mod get_user_by_email;
pub mod register_user;

verus! {

/// A role, as the backend lists it.
#[derive(Debug, Clone)]
pub struct RoleValue {
    pub role_value: String,
}

/// The texts of a sequence of strings.
pub open spec fn texts(v: Seq<String>) -> Seq<Seq<char>> {
    v.map_values(|s: String| s@)
}

/// The role names of a sequence of roles.
pub open spec fn role_names(roles: Seq<RoleValue>) -> Seq<Seq<char>> {
    roles.map_values(|r: RoleValue| r.role_value@)
}

/// The lower-case form of a text, as Rust's `str::to_lowercase` gives it.
pub uninterp spec fn lowercase(s: Seq<char>) -> Seq<char>;

/// `str::to_lowercase`: the named lower-case form (Unicode case mapping,
/// which depends on the text alone).
#[verifier::external_body]
pub(crate) fn to_lowercase(s: &str) -> (r: String)
    ensures
        r@ == lowercase(s@),
{
    s.to_lowercase()
}

/// The names of the roles, in order.
pub fn role_name_list(roles: &Vec<RoleValue>) -> (names: Vec<String>)
    ensures
        texts(names@) == role_names(roles@),
{
    let mut names: Vec<String> = Vec::new();
    for i in 0..roles.len()
        invariant
            texts(names@) == role_names(roles@.take(i as int)),
    {
        let ghost before = names@;
        let name = roles[i].role_value.clone();
        assert(name@ == roles@[i as int].role_value@);
        names.push(name);
        assert(names@ == before.push(name));
        assert(roles@.take(i + 1) =~= roles@.take(i as int).push(roles@[i as int]));
        assert(texts(names@) =~= texts(before).push(name@));
        assert(role_names(roles@.take(i + 1)) =~= role_names(roles@.take(i as int)).push(
            roles@[i as int].role_value@,
        ));
    }
    assert(roles@.take(roles.len() as int) == roles@);
    names
}

} // verus!

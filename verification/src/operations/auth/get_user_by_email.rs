//! Looking an account up by its e-mail address.

use vstd::prelude::*;

use super::{lowercase, role_name_list, role_names, texts, to_lowercase, RoleValue};
use crate::error::Error;

verus! {

/// The query that looks an account up by e-mail address.
pub struct GetUserByEmail;

/// What the query sends.
#[derive(Debug, Clone)]
pub struct GetUserByEmailVariables {
    pub email: String,
}

/// An account as the query returns it.
#[derive(Debug, Clone)]
pub struct GetUserByEmailAuthAccount {
    pub id: String,
    pub email: String,
    pub password: String,
    pub account_has_roles: Vec<RoleValue>,
}

/// The data of the query's answer.
#[derive(Debug, Clone)]
pub struct GetUserByEmailData {
    pub auth_account: Vec<GetUserByEmailAuthAccount>,
}

/// An account: its id, e-mail address, password hash and role names.
#[derive(Debug, Clone)]
pub struct UserEntry {
    pub id: String,
    pub email: String,
    pub password: String,
    pub roles: Vec<String>,
}

/// `u` holds what the account `a` holds.
pub open spec fn is_entry_of(u: UserEntry, a: GetUserByEmailAuthAccount) -> bool {
    &&& u.id@ == a.id@
    &&& u.email@ == a.email@
    &&& u.password@ == a.password@
    &&& texts(u.roles@) == role_names(a.account_has_roles@)
}

impl UserEntry {
    /// The entry of an account as the query returns it.
    pub fn from(source: &GetUserByEmailAuthAccount) -> (u: UserEntry)
        ensures
            is_entry_of(u, *source),
    {
        UserEntry {
            id: source.id.clone(),
            email: source.email.clone(),
            password: source.password.clone(),
            roles: role_name_list(&source.account_has_roles),
        }
    }
}

impl GetUserByEmail {
    /// The variables for looking up `email`, in lower case.
    pub fn variables(email: &str) -> (v: GetUserByEmailVariables)
        ensures
            v.email@ == lowercase(email@),
    {
        GetUserByEmailVariables { email: to_lowercase(email) }
    }

    /// The account found: the first one the backend returned, or a
    /// `GraphQLError` when it returned none.
    pub fn response(data: &GetUserByEmailData) -> (r: Result<UserEntry, Error>)
        ensures
            data.auth_account@.len() > 0 ==> (r matches Ok(u) && is_entry_of(
                u,
                data.auth_account@[0],
            )),
            data.auth_account@.len() == 0 ==> (r matches Err(e) && e matches Error::GraphQLError {
                msg,
            } && msg@ == "Unable to find user from email"@),
    {
        if data.auth_account.len() > 0 {
            Ok(UserEntry::from(&data.auth_account[0]))
        } else {
            Err(Error::GraphQLError { msg: String::from_str("Unable to find user from email") })
        }
    }
}

} // verus!

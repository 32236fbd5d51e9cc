//! Creating an account.

use vstd::prelude::*;

use super::{lowercase, to_lowercase};
use crate::error::Error;

verus! {

/// The query that creates an account with its first access token.
pub struct RegisterUser;

/// What the query sends.
#[derive(Debug, Clone)]
pub struct RegisterUserVariables {
    pub email: String,
    pub password: String,
    pub role: String,
    pub token: String,
}

impl RegisterUser {
    /// The variables for creating the account of `email` (stored in lower
    /// case) with a password hash, a role and the stored form of a token.
    pub fn variables(email: &str, password_hash: &str, role: &str, token: &str) -> (v:
        RegisterUserVariables)
        ensures
            v.email@ == lowercase(email@),
            v.password@ == password_hash@,
            v.role@ == role@,
            v.token@ == token@,
    {
        RegisterUserVariables {
            email: to_lowercase(email),
            password: String::from_str(password_hash),
            role: String::from_str(role),
            token: String::from_str(token),
        }
    }

    /// The outcome, given whether the backend answered with the inserted row.
    pub fn outcome(inserted: bool) -> (r: Result<(), Error>)
        ensures
            r is Ok <==> inserted,
            r matches Err(e) ==> (e matches Error::GraphQLError { msg } && msg@
                == "Unable to create user"@),
    {
        if inserted {
            Ok(())
        } else {
            Err(Error::GraphQLError { msg: String::from_str("Unable to create user") })
        }
    }
}

} // verus!

//! Storing a new access token of an account.

use vstd::prelude::*;

use crate::error::Error;

verus! {

/// The query that stores an access token.
pub struct AddToken;

/// What the query sends: the account and the stored form of the token.
#[derive(Debug, Clone)]
pub struct AddTokenVariables {
    pub account: String,
    pub token: String,
}

impl AddToken {
    /// The variables for storing the token hash `token` of `account_id`.
    pub fn variables(account_id: &str, token: &str) -> (v: AddTokenVariables)
        ensures
            v.account@ == account_id@,
            v.token@ == token@,
    {
        AddTokenVariables { account: String::from_str(account_id), token: String::from_str(token) }
    }

    /// The outcome, given whether the backend answered with the inserted row.
    pub fn outcome(inserted: bool) -> (r: Result<(), Error>)
        ensures
            r is Ok <==> inserted,
            r matches Err(e) ==> (e matches Error::GraphQLError { msg } && msg@
                == "Unable to create auth token"@),
    {
        if inserted {
            Ok(())
        } else {
            Err(Error::GraphQLError { msg: String::from_str("Unable to create auth token") })
        }
    }
}

} // verus!

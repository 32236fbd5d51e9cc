//! Settings of the service.

use vstd::prelude::*;

verus! {

/// Where the GraphQL backend is, and the token that internal callers use.
#[derive(Clone, Debug)]
pub struct AppConfiguration {
    pub hasura_endpoint: String,
    pub internal_token: String,
}

} // verus!

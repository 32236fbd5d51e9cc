//! The GraphQL backend: the client settings and the decisions taken on what
//! an exchange with it gives back. The exchange itself (an HTTP POST of the
//! query) is made by the caller, which hands each outcome to these functions.

use vstd::prelude::*;

use crate::config::AppConfiguration;
use crate::error::Error;

pub mod auth;

verus! {

/// The endpoint of the GraphQL backend and the headers sent with each query.
#[derive(Debug)]
pub struct GQLClient {
    pub endpoint: String,
    pub headers: Vec<(String, String)>,
}

/// The header that carries the backend's admin secret.
pub open spec fn admin_secret_header() -> Seq<char> {
    "x-hasura-admin-secret"@
}

/// The header that names the role the queries run as.
pub open spec fn role_header() -> Seq<char> {
    "x-hasura-role"@
}

/// `c` is the client of the authentication server for the configuration `cfg`.
pub open spec fn is_auth_server_client(c: GQLClient, cfg: AppConfiguration) -> bool {
    &&& c.endpoint@ == cfg.hasura_endpoint@
    &&& c.headers@.len() == 2
    &&& c.headers@[0].0@ == admin_secret_header()
    &&& c.headers@[0].1@ == "p6vM/s18zDP2Z5zszd6+wWzrIeU="@
    &&& c.headers@[1].0@ == role_header()
    &&& c.headers@[1].1@ == "auth-server"@
}

/// The message of a failed query: `GraphQL query to <endpoint> failed with <what>`.
pub open spec fn query_failed_text(endpoint: Seq<char>, what: Seq<char>) -> Seq<char> {
    "GraphQL query to "@ + endpoint + " failed with "@ + what
}

impl GQLClient {
    /// The client that the authentication server queries the backend with:
    /// the configured endpoint, the admin secret and the role `auth-server`.
    pub fn get_auth_server_client(cfg: &AppConfiguration) -> (c: Self)
        ensures
            is_auth_server_client(c, *cfg),
    {
        let mut headers: Vec<(String, String)> = Vec::new();
        headers.push(
            (String::from_str("x-hasura-admin-secret"), String::from_str("p6vM/s18zDP2Z5zszd6+wWzrIeU=")),
        );
        headers.push((String::from_str("x-hasura-role"), String::from_str("auth-server")));
        GQLClient { endpoint: cfg.hasura_endpoint.clone(), headers }
    }

    /// The error for a query that could not be sent or answered, given the
    /// text of the transport error.
    pub fn send_failed(&self, error_text: &str) -> (e: Error)
        ensures
            e matches Error::ReqwestError { msg } && msg@ == "GraphQL Request failed: '"@
                + error_text@ + "'"@,
    {
        let mut msg = String::from_str("GraphQL Request failed: '");
        msg.append(error_text);
        msg.append("'");
        Error::ReqwestError { msg }
    }

    /// Checks the HTTP status of the answer: a status that is not a success
    /// fails the query, naming the endpoint and the status.
    pub fn check_status(&self, success: bool, status_text: &str) -> (r: Result<(), Error>)
        ensures
            r is Ok <==> success,
            r matches Err(e) ==> (e matches Error::GraphQLError { msg } && msg@
                == query_failed_text(self.endpoint@, status_text@)),
    {
        if !success {
            let mut msg = String::from_str("GraphQL query to ");
            msg.append(self.endpoint.as_str());
            msg.append(" failed with ");
            msg.append(status_text);
            return Err(Error::GraphQLError { msg });
        }
        Ok(())
    }

    /// The error for an answer whose body could not be read as a GraphQL
    /// response, given the text of the reading error.
    pub fn read_failed(&self, error_text: &str) -> (e: Error)
        ensures
            e matches Error::ReqwestError { msg } && msg@ == "GraphQL reading response failed: '"@
                + error_text@ + "'"@,
    {
        let mut msg = String::from_str("GraphQL reading response failed: '");
        msg.append(error_text);
        msg.append("'");
        Error::ReqwestError { msg }
    }

    /// The data of a GraphQL response. `errors` is the debug text of the
    /// response's `errors` field when that field is present; a response with
    /// errors fails, naming them, and so does one without data.
    pub fn response_data<T>(&self, errors: Option<String>, data: Option<T>) -> (r: Result<
        T,
        Error,
    >)
        ensures
            errors matches Some(text) ==> (r matches Err(Error::GraphQLError { msg }) && msg@
                == query_failed_text(self.endpoint@, text@)),
            errors is None && data is Some ==> r == Ok::<T, Error>(data->0),
            errors is None && data is None ==> (r matches Err(Error::GraphQLError { msg }) && msg@
                == "GraphQL query to "@ + self.endpoint@
                + " failed returned no errors and an empty data section"@),
    {
        if let Some(text) = errors {
            let mut msg = String::from_str("GraphQL query to ");
            msg.append(self.endpoint.as_str());
            msg.append(" failed with ");
            msg.append(text.as_str());
            return Err(Error::GraphQLError { msg });
        }
        if let Some(d) = data {
            return Ok(d);
        }
        let mut msg = String::from_str("GraphQL query to ");
        msg.append(self.endpoint.as_str());
        msg.append(" failed returned no errors and an empty data section");
        Err(Error::GraphQLError { msg })
    }
}

} // verus!

//! The errors of the service and the text each one is shown with.

use vstd::prelude::*;

verus! {

/// An error of the service. Each variant carries the texts it is shown with.
#[derive(Debug, Clone)]
pub enum Error {
    /// A GraphQL request gave no usable answer (answered with status 500).
    GraphQLError { msg: String },
    /// The HTTP exchange with the GraphQL backend failed (status 500).
    ReqwestError { msg: String },
    /// The caller is not allowed in (status 401); `detail` is not shown to it.
    Unauthorized { msg: String, detail: String },
    /// Hashing a password failed (status 500).
    ArgonHash { msg: String },
}

/// Results of the service.
pub type Result<T, E = Error> = core::result::Result<T, E>;

impl Error {
    /// The text the error is displayed with.
    pub open spec fn spec_message(&self) -> Seq<char> {
        match self {
            Error::GraphQLError { msg } => "GraphQL request failed "@ + msg@,
            Error::ReqwestError { msg } => "Reqwest request failed "@ + msg@,
            Error::Unauthorized { msg, detail } => "Unauthorized: "@ + msg@ + " ["@ + detail@
                + "]"@,
            Error::ArgonHash { msg } => "Failed to hash password: "@ + msg@,
        }
    }

    /// The HTTP status the error is answered with.
    pub open spec fn spec_status(&self) -> u16 {
        match self {
            Error::Unauthorized { .. } => 401,
            _ => 500,
        }
    }

    /// Renders the error as text.
    pub fn to_string(&self) -> (text: String)
        ensures
            text@ == self.spec_message(),
    {
        match self {
            Error::GraphQLError { msg } => {
                let mut t = String::from_str("GraphQL request failed ");
                t.append(msg.as_str());
                t
            },
            Error::ReqwestError { msg } => {
                let mut t = String::from_str("Reqwest request failed ");
                t.append(msg.as_str());
                t
            },
            Error::Unauthorized { msg, detail } => {
                let mut t = String::from_str("Unauthorized: ");
                t.append(msg.as_str());
                t.append(" [");
                t.append(detail.as_str());
                t.append("]");
                t
            },
            Error::ArgonHash { msg } => {
                let mut t = String::from_str("Failed to hash password: ");
                t.append(msg.as_str());
                t
            },
        }
    }

    /// The HTTP status the error is answered with.
    pub fn status(&self) -> (code: u16)
        ensures
            code == self.spec_status(),
    {
        match self {
            Error::Unauthorized { .. } => 401,
            _ => 500,
        }
    }
}

/// Prepares error details for the caller; they are passed on unchanged.
pub fn encrypt(data: String) -> (out: String)
    ensures
        out@ == data@,
{
    data
}

} // verus!

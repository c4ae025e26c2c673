//! Error taxonomy of the client.
//!
//! Configuration problems (a bad endpoint, a missing environment
//! variable, a transport that cannot be built) make a client unusable;
//! request construction, protocol and decode problems are recoverable
//! per call and are handed back as values.
use vstd::prelude::*;

verus! {

/// One of the three required environment variables.
#[derive(Debug, Clone, Copy, PartialEq, Eq, Structural)]
pub enum EnvVar {
    Endpoint,
    UserName,
    UserToken,
}

impl EnvVar {
    /// The name under which the variable is looked up.
    pub fn name(&self) -> (r: &'static str)
        ensures
            self is Endpoint ==> r@ == "X_SLURM_ENDPOINT"@,
            self is UserName ==> r@ == "X_SLURM_USER_NAME"@,
            self is UserToken ==> r@ == "X_SLURM_USER_TOKEN"@,
    {
        match self {
            EnvVar::Endpoint => "X_SLURM_ENDPOINT",
            EnvVar::UserName => "X_SLURM_USER_NAME",
            EnvVar::UserToken => "X_SLURM_USER_TOKEN",
        }
    }
}

/// Everything that can go wrong while building a client, building a
/// request, or carrying out a call.
#[derive(Debug, Clone, PartialEq)]
pub enum ClientError {
    /// The endpoint is not a well-formed URL.
    InvalidEndpoint,
    /// The HTTP transport could not be built.
    ClientBuild,
    /// A required environment variable is not set.
    MissingEnv(EnvVar),
    /// The user name or token holds a character that cannot stand in an
    /// HTTP header value.
    InvalidHeaderValue,
    /// The server answered with a status other than 200 OK; the raw
    /// body is kept so that the upstream error payload can be read.
    Protocol { status: u16, body: String },
    /// The response body is not JSON of the endpoint's schema.
    Decode,
}

} // verus!

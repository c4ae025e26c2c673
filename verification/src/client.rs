//! The two client handles: `Slurm` for the controller namespace and
//! `SlurmDB` for the accounting namespace.
//!
//! A handle holds connection-scoped credentials, the normalized
//! endpoint, and the shared HTTP transport; it builds one request per
//! call and never performs network work itself.
use vstd::prelude::*;
use vstd::string::*;

use crate::error::{ClientError, EnvVar};
use crate::json::{Json, JsonV};
use crate::request::{
    build_request, pairs_view, spec_built_request, valid_header_value, BuiltRequest, Method,
    SLURMDB_PREFIX, SLURM_PREFIX,
};

verus! {

/// The declaration of reqwest's client type, held as the shared
/// transport handle.
#[verifier::external_type_specification]
#[verifier::external_body]
pub struct ExReqwestClient(reqwest::Client);

/// The URL that `s` parses and normalizes to, or nothing when it is
/// not a well-formed absolute URL.
pub uninterp spec fn spec_parse_url(s: Seq<char>) -> Option<Seq<char>>;

/// Relies on `reqwest::Url::parse` (the `url` crate): parsing depends
/// on the text alone; a well-formed absolute URL parses to its
/// normalized form, named `spec_parse_url`, and anything else is
/// rejected.
#[verifier::external_body]
fn parse_endpoint(s: &str) -> (r: Option<String>)
    ensures
        match r {
            Some(u) => spec_parse_url(s@) == Some(u@),
            None => spec_parse_url(s@) is None,
        },
{
    match reqwest::Url::parse(s) {
        Ok(u) => Some(u.as_str().to_owned()),
        Err(_) => None,
    }
}

/// Relies on `reqwest::Client::builder` and `ClientBuilder::build`:
/// building the shared transport can fail for environmental reasons,
/// so nothing is promised of the outcome.
#[verifier::external_body]
fn build_http_client() -> (r: Option<reqwest::Client>) {
    reqwest::Client::builder().build().ok()
}

/// Whether `s` ends with a slash.
pub open spec fn ends_with_slash(s: Seq<char>) -> bool {
    s.len() > 0 && s.last() == '/'
}

/// The endpoint as stored: the parsed URL with a slash appended when
/// it does not already end in one, so that the namespace prefix always
/// starts a new path segment.
pub open spec fn spec_normalized_endpoint(u: Seq<char>) -> Seq<char> {
    if ends_with_slash(u) {
        u
    } else {
        u + seq!['/']
    }
}

/// Append a trailing slash unless one is already there.
fn with_trailing_slash(s: &str) -> (r: String)
    ensures
        r@ == spec_normalized_endpoint(s@),
{
    let n = s.unicode_len();
    if n > 0 && s.get_char(n - 1) == '/' {
        s.to_owned()
    } else {
        let mut r = s.to_owned();
        r.append("/");
        proof {
            reveal_strlit("/");
            assert(r@ =~= s@ + seq!['/']);
        }
        r
    }
}

/// Parse and normalize an endpoint URL, or report it invalid.
fn validated_endpoint(url: &str) -> (r: Result<String, ClientError>)
    ensures
        r is Ok <==> spec_parse_url(url@) is Some,
        match r {
            Ok(e) => e@ == spec_normalized_endpoint(spec_parse_url(url@).unwrap()),
            Err(e) => e == ClientError::InvalidEndpoint,
        },
{
    match parse_endpoint(url) {
        None => Err(ClientError::InvalidEndpoint),
        Some(u) => Ok(with_trailing_slash(u.as_str())),
    }
}

/// Entrypoint for the controller namespace. To authenticate with the
/// API, the handle carries a user name and a token.
#[derive(Debug)]
pub struct Slurm {
    user: String,
    token: String,
    endpoint: String,
    http: reqwest::Client,
}

/// The model of [`Slurm`]: its credentials and normalized endpoint.
pub struct SlurmV {
    pub user: Seq<char>,
    pub token: Seq<char>,
    pub endpoint: Seq<char>,
}

impl View for Slurm {
    type V = SlurmV;

    closed spec fn view(&self) -> SlurmV {
        SlurmV { user: self.user@, token: self.token@, endpoint: self.endpoint@ }
    }
}

impl Slurm {
    /// Make a handle from credentials, an endpoint and an
    /// already-built transport. For every triple whose endpoint is a
    /// well-formed URL this succeeds; the one error is a malformed
    /// endpoint.
    pub fn with_client(user: &str, token: &str, url: &str, http: reqwest::Client) -> (r: Result<
        Slurm,
        ClientError,
    >)
        ensures
            r is Ok <==> spec_parse_url(url@) is Some,
            match r {
                Ok(c) => c@ == (SlurmV {
                    user: user@,
                    token: token@,
                    endpoint: spec_normalized_endpoint(spec_parse_url(url@).unwrap()),
                }),
                Err(e) => e == ClientError::InvalidEndpoint,
            },
    {
        let endpoint = validated_endpoint(url)?;
        Ok(Slurm { user: user.to_owned(), token: token.to_owned(), endpoint, http })
    }

    /// Make a handle from credentials and an endpoint, building the
    /// shared transport. It fails on a malformed endpoint, or when the
    /// transport cannot be built.
    pub fn new(user: &str, token: &str, url: &str) -> (r: Result<Slurm, ClientError>)
        ensures
            spec_parse_url(url@) is None ==> r is Err,
            match r {
                Ok(c) => spec_parse_url(url@) is Some && c@ == (SlurmV {
                    user: user@,
                    token: token@,
                    endpoint: spec_normalized_endpoint(spec_parse_url(url@).unwrap()),
                }),
                Err(e) => e == ClientError::ClientBuild || (e == ClientError::InvalidEndpoint
                    && spec_parse_url(url@) is None),
            },
    {
        match build_http_client() {
            None => Err(ClientError::ClientBuild),
            Some(http) => Slurm::with_client(user, token, url, http),
        }
    }

    /// Make a handle from the values of the three environment
    /// variables, each `None` where the variable is not set. A missing
    /// variable fails at once, naming it, before anything else is
    /// tried; with all three present this behaves as construction from
    /// explicit credentials.
    pub fn from_env_values(
        endpoint: Option<String>,
        user: Option<String>,
        token: Option<String>,
    ) -> (r: Result<Slurm, ClientError>)
        ensures
            endpoint is None ==> r == Err::<Slurm, ClientError>(
                ClientError::MissingEnv(EnvVar::Endpoint),
            ),
            endpoint is Some && user is None ==> r == Err::<Slurm, ClientError>(
                ClientError::MissingEnv(EnvVar::UserName),
            ),
            endpoint is Some && user is Some && token is None ==> r == Err::<Slurm, ClientError>(
                ClientError::MissingEnv(EnvVar::UserToken),
            ),
            endpoint is Some && user is Some && token is Some ==> {
                &&& spec_parse_url(endpoint.unwrap()@) is None ==> r is Err
                &&& match r {
                    Ok(c) => spec_parse_url(endpoint.unwrap()@) is Some && c@ == (SlurmV {
                        user: user.unwrap()@,
                        token: token.unwrap()@,
                        endpoint: spec_normalized_endpoint(
                            spec_parse_url(endpoint.unwrap()@).unwrap(),
                        ),
                    }),
                    Err(e) => e == ClientError::ClientBuild || (e == ClientError::InvalidEndpoint
                        && spec_parse_url(endpoint.unwrap()@) is None),
                }
            },
    {
        let endpoint = match endpoint {
            None => {
                return Err(ClientError::MissingEnv(EnvVar::Endpoint));
            },
            Some(e) => e,
        };
        let user = match user {
            None => {
                return Err(ClientError::MissingEnv(EnvVar::UserName));
            },
            Some(u) => u,
        };
        let token = match token {
            None => {
                return Err(ClientError::MissingEnv(EnvVar::UserToken));
            },
            Some(t) => t,
        };
        Slurm::new(user.as_str(), token.as_str(), endpoint.as_str())
    }

    /// The stored, normalized endpoint.
    pub fn endpoint_str(&self) -> (r: &str)
        ensures
            r@ == self@.endpoint,
    {
        self.endpoint.as_str()
    }

    /// The shared HTTP transport, for the layer that carries requests
    /// out.
    pub fn http_client(&self) -> &reqwest::Client {
        &self.http
    }

    /// The internal request builder: the controller namespace's prefix,
    /// then the endpoint-specific path.
    pub fn request(
        &self,
        method: Method,
        path: &str,
        body: &Json,
        query: Option<&Vec<(String, String)>>,
    ) -> (r: Result<BuiltRequest, ClientError>)
        ensures
            r is Ok <==> valid_header_value(self@.user) && valid_header_value(self@.token),
            match r {
                Ok(br) => br@ == spec_built_request(
                    self@.user,
                    self@.token,
                    self@.endpoint,
                    SLURM_PREFIX@,
                    method,
                    path@,
                    body@,
                    match query {
                        Option::Some(q) => Some(pairs_view(q@)),
                        Option::None => None,
                    },
                ),
                Err(e) => e == ClientError::InvalidHeaderValue,
            },
    {
        build_request(
            self.user.as_str(),
            self.token.as_str(),
            self.endpoint.as_str(),
            SLURM_PREFIX,
            method,
            path,
            body,
            query,
        )
    }

    /// Build the GET request that asks for liveness of the controller daemons.
    pub fn ping_request(&self) -> (r: Result<BuiltRequest, ClientError>)
        ensures
            r is Ok <==> valid_header_value(self@.user) && valid_header_value(self@.token),
            match r {
                Ok(br) => br@ == spec_built_request(
                    self@.user,
                    self@.token,
                    self@.endpoint,
                    SLURM_PREFIX@,
                    Method::Get,
                    "ping"@,
                    JsonV::Null,
                    None,
                ),
                Err(e) => e == ClientError::InvalidHeaderValue,
            },
    {
        self.request(Method::Get, "ping", &Json::Null, None)
    }
    /// Build the GET request that asks for every partition.
    pub fn partitions_request(&self) -> (r: Result<BuiltRequest, ClientError>)
        ensures
            r is Ok <==> valid_header_value(self@.user) && valid_header_value(self@.token),
            match r {
                Ok(br) => br@ == spec_built_request(
                    self@.user,
                    self@.token,
                    self@.endpoint,
                    SLURM_PREFIX@,
                    Method::Get,
                    "partitions"@,
                    JsonV::Null,
                    None,
                ),
                Err(e) => e == ClientError::InvalidHeaderValue,
            },
    {
        self.request(Method::Get, "partitions", &Json::Null, None)
    }
    /// Build the GET request that asks for every compute node.
    pub fn nodes_request(&self) -> (r: Result<BuiltRequest, ClientError>)
        ensures
            r is Ok <==> valid_header_value(self@.user) && valid_header_value(self@.token),
            match r {
                Ok(br) => br@ == spec_built_request(
                    self@.user,
                    self@.token,
                    self@.endpoint,
                    SLURM_PREFIX@,
                    Method::Get,
                    "nodes"@,
                    JsonV::Null,
                    None,
                ),
                Err(e) => e == ClientError::InvalidHeaderValue,
            },
    {
        self.request(Method::Get, "nodes", &Json::Null, None)
    }
    /// Build the GET request that asks for scheduler statistics.
    pub fn diag_request(&self) -> (r: Result<BuiltRequest, ClientError>)
        ensures
            r is Ok <==> valid_header_value(self@.user) && valid_header_value(self@.token),
            match r {
                Ok(br) => br@ == spec_built_request(
                    self@.user,
                    self@.token,
                    self@.endpoint,
                    SLURM_PREFIX@,
                    Method::Get,
                    "diag"@,
                    JsonV::Null,
                    None,
                ),
                Err(e) => e == ClientError::InvalidHeaderValue,
            },
    {
        self.request(Method::Get, "diag", &Json::Null, None)
    }
    /// Build the GET request that asks for every reservation.
    pub fn reservations_request(&self) -> (r: Result<BuiltRequest, ClientError>)
        ensures
            r is Ok <==> valid_header_value(self@.user) && valid_header_value(self@.token),
            match r {
                Ok(br) => br@ == spec_built_request(
                    self@.user,
                    self@.token,
                    self@.endpoint,
                    SLURM_PREFIX@,
                    Method::Get,
                    "reservations"@,
                    JsonV::Null,
                    None,
                ),
                Err(e) => e == ClientError::InvalidHeaderValue,
            },
    {
        self.request(Method::Get, "reservations", &Json::Null, None)
    }
    /// Build the GET request that asks for one partition's state.
    pub fn partition_request(&self, partition: &str) -> (r: Result<BuiltRequest, ClientError>)
        ensures
            r is Ok <==> valid_header_value(self@.user) && valid_header_value(self@.token),
            match r {
                Ok(br) => br@ == spec_built_request(
                    self@.user,
                    self@.token,
                    self@.endpoint,
                    SLURM_PREFIX@,
                    Method::Get,
                    "partition/"@ + partition@,
                    JsonV::Null,
                    None,
                ),
                Err(e) => e == ClientError::InvalidHeaderValue,
            },
    {
        let mut path = "partition/".to_owned();
        path.append(partition);
        self.request(Method::Get, path.as_str(), &Json::Null, None)
    }
    /// Build the GET request that asks for one node's state.
    pub fn node_request(&self, node: &str) -> (r: Result<BuiltRequest, ClientError>)
        ensures
            r is Ok <==> valid_header_value(self@.user) && valid_header_value(self@.token),
            match r {
                Ok(br) => br@ == spec_built_request(
                    self@.user,
                    self@.token,
                    self@.endpoint,
                    SLURM_PREFIX@,
                    Method::Get,
                    "node/"@ + node@,
                    JsonV::Null,
                    None,
                ),
                Err(e) => e == ClientError::InvalidHeaderValue,
            },
    {
        let mut path = "node/".to_owned();
        path.append(node);
        self.request(Method::Get, path.as_str(), &Json::Null, None)
    }
    /// Build the GET request that asks for one reservation's state.
    pub fn reservation_request(&self, reservation: &str) -> (r: Result<BuiltRequest, ClientError>)
        ensures
            r is Ok <==> valid_header_value(self@.user) && valid_header_value(self@.token),
            match r {
                Ok(br) => br@ == spec_built_request(
                    self@.user,
                    self@.token,
                    self@.endpoint,
                    SLURM_PREFIX@,
                    Method::Get,
                    "reservation/"@ + reservation@,
                    JsonV::Null,
                    None,
                ),
                Err(e) => e == ClientError::InvalidHeaderValue,
            },
    {
        let mut path = "reservation/".to_owned();
        path.append(reservation);
        self.request(Method::Get, path.as_str(), &Json::Null, None)
    }
}

/// Entrypoint for the accounting namespace. To authenticate with the
/// API, the handle carries a user name and a token.
#[derive(Debug)]
pub struct SlurmDB {
    user: String,
    token: String,
    endpoint: String,
    http: reqwest::Client,
}

/// The model of [`SlurmDB`]: its credentials and normalized endpoint.
pub struct SlurmDBV {
    pub user: Seq<char>,
    pub token: Seq<char>,
    pub endpoint: Seq<char>,
}

impl View for SlurmDB {
    type V = SlurmDBV;

    closed spec fn view(&self) -> SlurmDBV {
        SlurmDBV { user: self.user@, token: self.token@, endpoint: self.endpoint@ }
    }
}

impl SlurmDB {
    /// Make a handle from credentials, an endpoint and an
    /// already-built transport. For every triple whose endpoint is a
    /// well-formed URL this succeeds; the one error is a malformed
    /// endpoint.
    pub fn with_client(user: &str, token: &str, url: &str, http: reqwest::Client) -> (r: Result<
        SlurmDB,
        ClientError,
    >)
        ensures
            r is Ok <==> spec_parse_url(url@) is Some,
            match r {
                Ok(c) => c@ == (SlurmDBV {
                    user: user@,
                    token: token@,
                    endpoint: spec_normalized_endpoint(spec_parse_url(url@).unwrap()),
                }),
                Err(e) => e == ClientError::InvalidEndpoint,
            },
    {
        let endpoint = validated_endpoint(url)?;
        Ok(SlurmDB { user: user.to_owned(), token: token.to_owned(), endpoint, http })
    }

    /// Make a handle from credentials and an endpoint, building the
    /// shared transport. It fails on a malformed endpoint, or when the
    /// transport cannot be built.
    pub fn new(user: &str, token: &str, url: &str) -> (r: Result<SlurmDB, ClientError>)
        ensures
            spec_parse_url(url@) is None ==> r is Err,
            match r {
                Ok(c) => spec_parse_url(url@) is Some && c@ == (SlurmDBV {
                    user: user@,
                    token: token@,
                    endpoint: spec_normalized_endpoint(spec_parse_url(url@).unwrap()),
                }),
                Err(e) => e == ClientError::ClientBuild || (e == ClientError::InvalidEndpoint
                    && spec_parse_url(url@) is None),
            },
    {
        match build_http_client() {
            None => Err(ClientError::ClientBuild),
            Some(http) => SlurmDB::with_client(user, token, url, http),
        }
    }

    /// Make a handle from the values of the three environment
    /// variables, each `None` where the variable is not set. A missing
    /// variable fails at once, naming it, before anything else is
    /// tried; with all three present this behaves as construction from
    /// explicit credentials.
    pub fn from_env_values(
        endpoint: Option<String>,
        user: Option<String>,
        token: Option<String>,
    ) -> (r: Result<SlurmDB, ClientError>)
        ensures
            endpoint is None ==> r == Err::<SlurmDB, ClientError>(
                ClientError::MissingEnv(EnvVar::Endpoint),
            ),
            endpoint is Some && user is None ==> r == Err::<SlurmDB, ClientError>(
                ClientError::MissingEnv(EnvVar::UserName),
            ),
            endpoint is Some && user is Some && token is None ==> r == Err::<SlurmDB, ClientError>(
                ClientError::MissingEnv(EnvVar::UserToken),
            ),
            endpoint is Some && user is Some && token is Some ==> {
                &&& spec_parse_url(endpoint.unwrap()@) is None ==> r is Err
                &&& match r {
                    Ok(c) => spec_parse_url(endpoint.unwrap()@) is Some && c@ == (SlurmDBV {
                        user: user.unwrap()@,
                        token: token.unwrap()@,
                        endpoint: spec_normalized_endpoint(
                            spec_parse_url(endpoint.unwrap()@).unwrap(),
                        ),
                    }),
                    Err(e) => e == ClientError::ClientBuild || (e == ClientError::InvalidEndpoint
                        && spec_parse_url(endpoint.unwrap()@) is None),
                }
            },
    {
        let endpoint = match endpoint {
            None => {
                return Err(ClientError::MissingEnv(EnvVar::Endpoint));
            },
            Some(e) => e,
        };
        let user = match user {
            None => {
                return Err(ClientError::MissingEnv(EnvVar::UserName));
            },
            Some(u) => u,
        };
        let token = match token {
            None => {
                return Err(ClientError::MissingEnv(EnvVar::UserToken));
            },
            Some(t) => t,
        };
        SlurmDB::new(user.as_str(), token.as_str(), endpoint.as_str())
    }

    /// The stored, normalized endpoint.
    pub fn endpoint_str(&self) -> (r: &str)
        ensures
            r@ == self@.endpoint,
    {
        self.endpoint.as_str()
    }

    /// The shared HTTP transport, for the layer that carries requests
    /// out.
    pub fn http_client(&self) -> &reqwest::Client {
        &self.http
    }

    /// The internal request builder: the accounting namespace's prefix,
    /// then the endpoint-specific path.
    pub fn request(
        &self,
        method: Method,
        path: &str,
        body: &Json,
        query: Option<&Vec<(String, String)>>,
    ) -> (r: Result<BuiltRequest, ClientError>)
        ensures
            r is Ok <==> valid_header_value(self@.user) && valid_header_value(self@.token),
            match r {
                Ok(br) => br@ == spec_built_request(
                    self@.user,
                    self@.token,
                    self@.endpoint,
                    SLURMDB_PREFIX@,
                    method,
                    path@,
                    body@,
                    match query {
                        Option::Some(q) => Some(pairs_view(q@)),
                        Option::None => None,
                    },
                ),
                Err(e) => e == ClientError::InvalidHeaderValue,
            },
    {
        build_request(
            self.user.as_str(),
            self.token.as_str(),
            self.endpoint.as_str(),
            SLURMDB_PREFIX,
            method,
            path,
            body,
            query,
        )
    }
}

/// Every URL that a controller handle builds begins with its endpoint
/// followed by `slurm/v0.0.38/`, whatever the method, path, body and
/// query.
pub proof fn lemma_slurm_request_urls_prefixed(
    c: SlurmV,
    method: Method,
    path: Seq<char>,
    body: JsonV,
    query: Option<Seq<(Seq<char>, Seq<char>)>>,
)
    ensures
        spec_built_request(
            c.user,
            c.token,
            c.endpoint,
            SLURM_PREFIX@,
            method,
            path,
            body,
            query,
        ).url.take(c.endpoint.len() + SLURM_PREFIX@.len() as int) == c.endpoint + SLURM_PREFIX@,
{
    crate::request::lemma_request_url_prefixed(
        c.user,
        c.token,
        c.endpoint,
        SLURM_PREFIX@,
        method,
        path,
        body,
        query,
    );
}

/// Every URL that an accounting handle builds begins with its endpoint
/// followed by `slurmdb/v0.0.38/`, whatever the method, path, body and
/// query.
pub proof fn lemma_slurmdb_request_urls_prefixed(
    c: SlurmDBV,
    method: Method,
    path: Seq<char>,
    body: JsonV,
    query: Option<Seq<(Seq<char>, Seq<char>)>>,
)
    ensures
        spec_built_request(
            c.user,
            c.token,
            c.endpoint,
            SLURMDB_PREFIX@,
            method,
            path,
            body,
            query,
        ).url.take(c.endpoint.len() + SLURMDB_PREFIX@.len() as int) == c.endpoint + SLURMDB_PREFIX@,
{
    crate::request::lemma_request_url_prefixed(
        c.user,
        c.token,
        c.endpoint,
        SLURMDB_PREFIX@,
        method,
        path,
        body,
        query,
    );
}

} // verus!

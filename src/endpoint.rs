use vstd::prelude::*;
use vstd::string::StringExecFns;
use crate::config::{is_missing_field, validate, Config, ConfigError};

verus! {

#[verifier::external_type_specification]
#[verifier::external_body]
pub struct ExDsn(sentry::types::Dsn);

/// Transport scheme of an endpoint.
#[derive(Debug, Clone, Copy, PartialEq, Eq)]
pub enum Scheme {
    Http,
    Https,
}

/// A parsed connection descriptor: where events go, and under which key.
///
/// The plain fields are the parts of the descriptor; the parsed value itself
/// is kept for handing to the backend client.
pub struct Endpoint {
    scheme: Scheme,
    public_key: String,
    host: String,
    port: u16,
    path: String,
    project_id: String,
    dsn: sentry::types::Dsn,
}

pub ghost struct EndpointView {
    pub scheme: Scheme,
    pub public_key: Seq<char>,
    pub host: Seq<char>,
    pub port: u16,
    pub path: Seq<char>,
    pub project_id: Seq<char>,
}

impl View for Endpoint {
    type V = EndpointView;

    closed spec fn view(&self) -> EndpointView {
        EndpointView {
            scheme: self.scheme,
            public_key: self.public_key@,
            host: self.host@,
            port: self.port,
            path: self.path@,
            project_id: self.project_id@,
        }
    }
}

impl Endpoint {
    pub fn scheme(&self) -> (r: Scheme)
        ensures
            r == self@.scheme,
    {
        self.scheme
    }

    pub fn public_key(&self) -> (r: &str)
        ensures
            r@ == self@.public_key,
    {
        self.public_key.as_str()
    }

    pub fn host(&self) -> (r: &str)
        ensures
            r@ == self@.host,
    {
        self.host.as_str()
    }

    pub fn port(&self) -> (r: u16)
        ensures
            r == self@.port,
    {
        self.port
    }

    pub fn path(&self) -> (r: &str)
        ensures
            r@ == self@.path,
    {
        self.path.as_str()
    }

    pub fn project_id(&self) -> (r: &str)
        ensures
            r@ == self@.project_id,
    {
        self.project_id.as_str()
    }

    /// The parsed descriptor, as the backend client takes it.
    pub fn dsn(&self) -> &sentry::types::Dsn {
        &self.dsn
    }
}

/// The connection string for a key and a project:
/// `https://<public_key>@pulse.drcode.ai:443/<project_id>`, both fields verbatim.
pub open spec fn endpoint_text(public_key: Seq<char>, project_id: Seq<char>) -> Seq<char> {
    "https://"@ + public_key + "@pulse.drcode.ai:443/"@ + project_id
}

/// What parsing a connection string yields: its parts, or the parser's message.
pub uninterp spec fn dsn_parse(text: Seq<char>) -> Result<EndpointView, Seq<char>>;

/// Relies on sentry-types' `Dsn::from_str`, whose outcome depends on the text
/// alone: on success the parts are copied out of the parsed `Dsn`, on failure
/// the `ParseDsnError` is turned into its message.
#[verifier::external_body]
fn parse_dsn(text: &str) -> (r: Result<Endpoint, String>)
    ensures
        match r {
            Ok(e) => dsn_parse(text@) == Ok::<EndpointView, Seq<char>>(e@),
            Err(m) => dsn_parse(text@) == Err::<EndpointView, Seq<char>>(m@),
        },
{
    match text.parse::<sentry::types::Dsn>() {
        Ok(dsn) => Ok(Endpoint {
            scheme: match dsn.scheme() {
                sentry::types::Scheme::Http => Scheme::Http,
                sentry::types::Scheme::Https => Scheme::Https,
            },
            public_key: dsn.public_key().to_string(),
            host: dsn.host().to_string(),
            port: dsn.port(),
            path: dsn.path().to_string(),
            project_id: dsn.project_id().to_string(),
            dsn,
        }),
        Err(e) => Err(e.to_string()),
    }
}

/// Formats the connection string of `config`, without any escaping.
pub fn endpoint_url(config: &Config) -> (r: String)
    ensures
        r@ == endpoint_text(config.public_key@, config.project_id@),
{
    let mut s = String::from_str("https://");
    s.append(config.public_key.as_str());
    s.append("@pulse.drcode.ai:443/");
    s.append(config.project_id.as_str());
    s
}

/// `r` is what building the endpoint of `public_key` and `project_id` owes:
/// the parsed parts, or an initialization error carrying the parser's message.
pub open spec fn is_built_endpoint(
    r: Result<Endpoint, ConfigError>,
    public_key: Seq<char>,
    project_id: Seq<char>,
) -> bool {
    match dsn_parse(endpoint_text(public_key, project_id)) {
        Ok(v) => r matches Ok(e) && e@ == v,
        Err(m) => r matches Err(ConfigError::InitializationError(d)) && d@ == m,
    }
}

/// Formats the connection string of `config` and parses it.
pub fn build_endpoint(config: &Config) -> (r: Result<Endpoint, ConfigError>)
    ensures
        is_built_endpoint(r, config.public_key@, config.project_id@),
{
    let text = endpoint_url(config);
    match parse_dsn(text.as_str()) {
        Ok(e) => Ok(e),
        Err(m) => Err(ConfigError::InitializationError(m)),
    }
}

/// Validates `config`, then builds its endpoint: everything a client needs
/// before it connects.
pub fn prepare(config: &Config) -> (r: Result<Endpoint, ConfigError>)
    ensures
        config.public_key@.len() == 0 ==> (r matches Err(e) && is_missing_field(
            e,
            "public_key"@,
        )),
        config.public_key@.len() > 0 && config.project_id@.len() == 0 ==> (r matches Err(e)
            && is_missing_field(e, "project_id"@)),
        config.public_key@.len() > 0 && config.project_id@.len() > 0 ==> is_built_endpoint(
            r,
            config.public_key@,
            config.project_id@,
        ),
{
    match validate(config) {
        Err(e) => Err(e),
        Ok(()) => build_endpoint(config),
    }
}

} // verus!

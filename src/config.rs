//! Where the control plane lives, and the addresses derived from it.
use vstd::prelude::*;

verus! {

#[verifier::external_type_specification]
#[verifier::external_body]
pub struct ExUrlParseError(url::ParseError);

/// The serialization that the `url` crate gives to a text it accepts as an
/// absolute URL; `None` for a text it refuses.
pub uninterp spec fn url_serialization(s: Seq<char>) -> Option<Seq<char>>;

/// Relies on `url::Url::parse` and `url::Url::as_str`: the normalized text of
/// the URL, or the parse error.
#[verifier::external_body]
fn parse_url(s: &str) -> (r: Result<String, url::ParseError>)
    ensures
        r is Ok <==> url_serialization(s@) is Some,
        r matches Ok(u) ==> url_serialization(s@) == Some(u@),
{
    url::Url::parse(s).map(|u| u.as_str().to_string())
}

/// Which control plane to talk to.
pub enum Environment {
    Local,
    Production,
    Custom(String),
}

pub const LOCAL_URL: &'static str = "http://localhost:3001";

pub const PRODUCTION_URL: &'static str = "https://bench.chat";

/// The base address that an environment names, before parsing.
pub open spec fn address_of(env: Environment) -> Seq<char> {
    match env {
        Environment::Local => LOCAL_URL@,
        Environment::Production => PRODUCTION_URL@,
        Environment::Custom(u) => u@,
    }
}

impl Environment {
    /// The environment's short name: `local`, `production` or `custom`.
    pub fn name(&self) -> (r: String)
        ensures
            r@ == match *self {
                Environment::Local => "local"@,
                Environment::Production => "production"@,
                Environment::Custom(_) => "custom"@,
            },
    {
        match self {
            Environment::Local => String::from_str("local"),
            Environment::Production => String::from_str("production"),
            Environment::Custom(_) => String::from_str("custom"),
        }
    }
}

/// The base address was not a valid absolute URL.
#[derive(Clone, Copy, Debug, PartialEq, Eq)]
pub enum ConfigError {
    InvalidUrl,
}

pub struct Config {
    /// The normalized base URL.
    pub base_url: String,
}

impl Config {
    /// The configuration of an environment; an error exactly when its address
    /// is not a valid URL.
    pub fn new(env: &Environment) -> (r: Result<Config, ConfigError>)
        ensures
            r is Err <==> url_serialization(address_of(*env)) is None,
            r is Err ==> r == Err::<Config, ConfigError>(ConfigError::InvalidUrl),
            r matches Ok(c) ==> url_serialization(address_of(*env)) == Some(c.base_url@),
    {
        let address: &str = match env {
            Environment::Local => LOCAL_URL,
            Environment::Production => PRODUCTION_URL,
            Environment::Custom(u) => u.as_str(),
        };
        match parse_url(address) {
            Ok(base_url) => Ok(Config { base_url }),
            Err(_) => Err(ConfigError::InvalidUrl),
        }
    }

    /// The endpoint that exchanges a token for a connection URL.
    pub fn ws_url_endpoint(&self) -> (r: String)
        ensures
            r@ == self.base_url@ + "api/terminal/ws-url"@,
    {
        let mut s = self.base_url.clone();
        s.append("api/terminal/ws-url");
        s
    }

    /// The page where a person authorizes `token`.
    pub fn auth_url(&self, token: &str) -> (r: String)
        ensures
            r@ == self.base_url@ + "auth/"@ + token@,
    {
        let mut s = self.base_url.clone();
        s.append("auth/");
        s.append(token);
        s
    }
}

} // verus!

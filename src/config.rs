use vstd::prelude::*;
use vstd::string::StringExecFns;

verus! {

/// What the client needs to reach the telemetry backend.
pub struct Config {
    pub public_key: String,
    pub project_id: String,
}

/// Why a client could not be set up.
#[derive(Debug, PartialEq, Eq)]
pub enum ConfigError {
    /// A required field of the configuration is empty; holds the field's name.
    MissingField(String),
    /// The endpoint could not be parsed; holds the parser's message.
    InitializationError(String),
}

/// `e` reports the field named `name` as missing.
pub open spec fn is_missing_field(e: ConfigError, name: Seq<char>) -> bool {
    e matches ConfigError::MissingField(f) && f@ == name
}

fn missing_field(name: &str) -> (e: ConfigError)
    ensures
        is_missing_field(e, name@),
{
    ConfigError::MissingField(String::from_str(name))
}

/// Checks that both required fields are filled in; `public_key` is checked first.
pub fn validate(config: &Config) -> (r: Result<(), ConfigError>)
    ensures
        config.public_key@.len() == 0 ==> (r matches Err(e) && is_missing_field(e, "public_key"@)),
        config.public_key@.len() > 0 && config.project_id@.len() == 0 ==> (r matches Err(e)
            && is_missing_field(e, "project_id"@)),
        config.public_key@.len() > 0 && config.project_id@.len() > 0 ==> r is Ok,
{
    if config.public_key.as_str().is_empty() {
        return Err(missing_field("public_key"));
    }
    if config.project_id.as_str().is_empty() {
        return Err(missing_field("project_id"));
    }
    Ok(())
}

} // verus!

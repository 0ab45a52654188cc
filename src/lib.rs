//! Setup and reporting logic for the pulse error-telemetry client.

mod config;
mod endpoint;
mod hook;
mod task;

pub use config::{is_missing_field, validate, Config, ConfigError};
pub use endpoint::{
    build_endpoint, dsn_parse, endpoint_text, endpoint_url, is_built_endpoint, prepare, Endpoint,
    EndpointView, Scheme,
};
pub use hook::{
    claimed, fatal_message, fatal_text, grants, grants_in_two_claims, lemma_installed_once,
    HookGate,
};
pub use task::{
    into_application_result, lemma_settle_reports_once, reports_of, settle, settled,
    ApplicationError, Settlement,
};

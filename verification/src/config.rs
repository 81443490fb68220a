//! Process configuration and the choice of backend.
//!
//! Reading the environment stays outside the library; the decision of which
//! backend a configuration selects is made here.

use vstd::prelude::*;

verus! {

/// The configuration the process is started with.
pub struct Config {
    /// The access key for the remote backend; absent in a local deployment.
    pub deta_project_key: Option<String>,
    /// The port to serve on.
    pub port: u16,
    /// Whether to keep state in process memory only.
    pub use_ephemeral_backend: bool,
}

/// The port used where the environment names none.
pub fn default_port() -> (r: u16)
    ensures
        r == 3000,
{
    3000
}

/// Whether the in-memory backend is used where the environment says
/// nothing.
pub fn use_ephemeral() -> (r: bool)
    ensures
        r == false,
{
    false
}

/// Which backend a configuration selects. The remote one carries the access
/// key it is to be constructed with.
pub enum BackendChoice {
    Deta { project_key: String },
    Ephemeral,
    Local,
}

/// The backend a configuration selects: remote wherever a project key is
/// set, else the in-memory backend where asked for, else the local one.
pub fn choose_backend(config: &Config) -> (r: BackendChoice)
    ensures
        match config.deta_project_key {
            Some(key) => r == (BackendChoice::Deta { project_key: key }),
            None => r == (if config.use_ephemeral_backend {
                BackendChoice::Ephemeral
            } else {
                BackendChoice::Local
            }),
        },
{
    match &config.deta_project_key {
        Some(key) => BackendChoice::Deta { project_key: key.clone() },
        None => {
            if config.use_ephemeral_backend {
                BackendChoice::Ephemeral
            } else {
                BackendChoice::Local
            }
        },
    }
}

} // verus!

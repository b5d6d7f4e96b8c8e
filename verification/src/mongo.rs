//! Startup configuration of the persistence connection and the consumer
//! endpoint.
//!
//! The worker is configured by externally supplied values: the
//! persistence store's credentials and database, and the downstream
//! consumer's base URL. A missing value is a fatal startup error — the
//! worker never continues with a degraded backend. The embedding process
//! reads the values from its environment and hands them here as plain
//! options; the rules of what is required, which error each omission
//! raises, and how the connection string is assembled are decided and
//! proved here.

use vstd::prelude::*;

verus! {

/// The values the worker must be given to start.
#[derive(Clone, Debug)]
pub struct StartupConfig {
    pub mongo_user: String,
    pub mongo_pass: String,
    pub mongo_db: String,
    /// Base URL of the downstream consumer's signal endpoint.
    pub simulation_url: String,
}

/// The startup value whose omission aborts the worker.
#[derive(Clone, Copy, Debug, PartialEq, Eq, Structural)]
pub enum ConfigError {
    MissingUser,
    MissingPassword,
    MissingDb,
    MissingSimulationUrl,
}

impl ConfigError {
    /// The startup error reported for each missing value.
    pub fn message(&self) -> (msg: &'static str)
        ensures
            *self == ConfigError::MissingUser ==> msg@ == "MONGO_USERNAME environment variable not set"@,
            *self == ConfigError::MissingPassword ==> msg@ == "MONGO_PASSWORD environment variable not set"@,
            *self == ConfigError::MissingDb ==> msg@ == "MONGO_DB environment variable not set"@,
            *self == ConfigError::MissingSimulationUrl ==> msg@ == "SIMULATION_URL environment variable not set"@,
    {
        match self {
            ConfigError::MissingUser => "MONGO_USERNAME environment variable not set",
            ConfigError::MissingPassword => "MONGO_PASSWORD environment variable not set",
            ConfigError::MissingDb => "MONGO_DB environment variable not set",
            ConfigError::MissingSimulationUrl => "SIMULATION_URL environment variable not set",
        }
    }
}

/// What building the configuration must return: the first missing value,
/// in the order user, password, database, consumer URL, decides the
/// error; with all four present the configuration carries them unchanged.
pub open spec fn spec_build_config(
    mongo_user: Option<String>,
    mongo_pass: Option<String>,
    mongo_db: Option<String>,
    simulation_url: Option<String>,
) -> Result<StartupConfig, ConfigError> {
    if mongo_user is None {
        Err(ConfigError::MissingUser)
    } else if mongo_pass is None {
        Err(ConfigError::MissingPassword)
    } else if mongo_db is None {
        Err(ConfigError::MissingDb)
    } else if simulation_url is None {
        Err(ConfigError::MissingSimulationUrl)
    } else {
        Ok(
            (StartupConfig {
                mongo_user: mongo_user->0,
                mongo_pass: mongo_pass->0,
                mongo_db: mongo_db->0,
                simulation_url: simulation_url->0,
            }),
        )
    }
}

/// Assemble the startup configuration from the externally supplied
/// values, failing on the first missing one.
pub fn build_startup_config(
    mongo_user: Option<String>,
    mongo_pass: Option<String>,
    mongo_db: Option<String>,
    simulation_url: Option<String>,
) -> (r: Result<StartupConfig, ConfigError>)
    ensures
        r == spec_build_config(mongo_user, mongo_pass, mongo_db, simulation_url),
{
    let user = match mongo_user {
        Some(u) => u,
        None => {
            return Err(ConfigError::MissingUser);
        },
    };
    let pass = match mongo_pass {
        Some(p) => p,
        None => {
            return Err(ConfigError::MissingPassword);
        },
    };
    let db = match mongo_db {
        Some(d) => d,
        None => {
            return Err(ConfigError::MissingDb);
        },
    };
    let url = match simulation_url {
        Some(s) => s,
        None => {
            return Err(ConfigError::MissingSimulationUrl);
        },
    };
    Ok(StartupConfig { mongo_user: user, mongo_pass: pass, mongo_db: db, simulation_url: url })
}

/// The connection string assembled from a configuration: the store's
/// well-known host and port, the credentials, the database, and the admin
/// authentication source.
pub open spec fn spec_mongo_uri(user: Seq<char>, pass: Seq<char>, db: Seq<char>) -> Seq<char> {
    "mongodb://"@ + user + ":"@ + pass + "@mongodb:27017/"@ + db + "?authSource=admin"@
}

/// Assemble the persistence connection string from the configuration.
pub fn mongo_uri(cfg: &StartupConfig) -> (uri: String)
    ensures
        uri@ == spec_mongo_uri(cfg.mongo_user@, cfg.mongo_pass@, cfg.mongo_db@),
{
    let mut uri = String::from_str("mongodb://");
    uri.append(cfg.mongo_user.as_str());
    uri.append(":");
    uri.append(cfg.mongo_pass.as_str());
    uri.append("@mongodb:27017/");
    uri.append(cfg.mongo_db.as_str());
    uri.append("?authSource=admin");
    proof {
        assert(uri@ =~= spec_mongo_uri(cfg.mongo_user@, cfg.mongo_pass@, cfg.mongo_db@));
    }
    uri
}

} // verus!

//! The connection resolver: where the store is and how to sign in, from what
//! the caller passed, what the environment holds, and the built-in defaults.

use crate::error::{AppError, ErrorKind};
use vstd::prelude::*;
use vstd::string::*;

verus! {

/// The two places a connection value can come from: a flag of the call, and
/// a variable of the environment as the caller read it.
#[derive(Debug, PartialEq, Eq)]
pub struct Setting {
    pub flag: Option<String>,
    pub env: Option<String>,
}

/// The sources of the four connection values. The environment's part is
/// what `NEO4J_URI`, `NEO4J_USER`, `NEO4J_PASSWORD` and `NEO4J_DB` held.
#[derive(Debug, PartialEq, Eq)]
pub struct ConnectionSources {
    pub uri: Setting,
    pub user: Setting,
    pub password: Setting,
    pub database: Setting,
}

/// A resolved connection: every value is present.
#[derive(Debug, PartialEq, Eq)]
pub struct ConnectionConfig {
    pub uri: String,
    pub user: String,
    pub password: String,
    pub database: String,
}

/// The characters of a text that may be absent.
pub open spec fn text_of(value: Option<String>) -> Option<Seq<char>> {
    match value {
        Some(s) => Some(s@),
        None => None,
    }
}

/// The value that applies: the flag if there is one, else the environment's
/// value if there is one, else the default if there is one.
pub open spec fn resolved(
    flag: Option<Seq<char>>,
    env: Option<Seq<char>>,
    default: Option<Seq<char>>,
) -> Option<Seq<char>> {
    if flag is Some {
        flag
    } else if env is Some {
        env
    } else {
        default
    }
}

/// The address of the store where none is given.
pub open spec fn default_uri() -> Seq<char> {
    "bolt://localhost:7687"@
}

/// The user where none is given.
pub open spec fn default_user() -> Seq<char> {
    "neo4j"@
}

/// The database where none is given.
pub open spec fn default_database() -> Seq<char> {
    "neo4j"@
}

/// The value of a setting with a default.
pub open spec fn setting_or(setting: Setting, default: Seq<char>) -> Seq<char> {
    resolved(text_of(setting.flag), text_of(setting.env), Some(default))->0
}

/// The password that the sources give, if they give one. It has no default.
pub open spec fn password_of(sources: ConnectionSources) -> Option<Seq<char>> {
    resolved(text_of(sources.password.flag), text_of(sources.password.env), None)
}

/// `config` holds what the sources resolve to.
pub open spec fn resolves_to(sources: ConnectionSources, config: ConnectionConfig) -> bool {
    &&& config.uri@ == setting_or(sources.uri, default_uri())
    &&& config.user@ == setting_or(sources.user, default_user())
    &&& Some(config.password@) == password_of(sources)
    &&& config.database@ == setting_or(sources.database, default_database())
}

/// Resolves one connection value from its sources and an optional default.
pub fn resolve(setting: &Setting, default: Option<&str>) -> (value: Option<String>)
    ensures
        text_of(value) == resolved(
            text_of(setting.flag),
            text_of(setting.env),
            match default {
                Some(d) => Some(d@),
                None => None,
            },
        ),
{
    match &setting.flag {
        Some(flag) => Some(flag.clone()),
        None => match &setting.env {
            Some(env) => Some(env.clone()),
            None => match default {
                Some(d) => Some(String::from_str(d)),
                None => None,
            },
        },
    }
}

/// Resolves one connection value that has a default.
fn resolve_or(setting: &Setting, default: &str) -> (value: String)
    ensures
        value@ == setting_or(*setting, default@),
{
    match resolve(setting, Some(default)) {
        Some(value) => value,
        None => String::from_str(default),
    }
}

/// Resolves the connection. It fails, before anything is sent anywhere, if
/// and only if no source gives a password.
pub fn connection_config(sources: &ConnectionSources) -> (config: Result<
    ConnectionConfig,
    AppError,
>)
    ensures
        match config {
            Ok(c) => resolves_to(*sources, c),
            Err(e) => password_of(*sources) is None && e@.kind
                == ErrorKind::ConnectionNotConfigured,
        },
{
    let uri = resolve_or(&sources.uri, "bolt://localhost:7687");
    let user = resolve_or(&sources.user, "neo4j");
    let password = match resolve(&sources.password, None) {
        Some(password) => password,
        None => {
            return Err(AppError::ConnectionNotConfigured);
        },
    };
    let database = resolve_or(&sources.database, "neo4j");
    Ok(ConnectionConfig { uri, user, password, database })
}

/// The driver's configuration for a resolved connection. The driver takes
/// every connection that is resolved; were it to refuse one, the connection
/// would have failed for the reason that the driver gives.
pub fn driver_config(config: &ConnectionConfig) -> (built: Result<neo4rs::Config, AppError>)
    ensures
        built is Ok,
        built->Ok_0 == crate::driver::driver_configuration(
            config.uri@,
            config.user@,
            config.password@,
            config.database@,
        ),
{
    match crate::driver::build_config(
        config.uri.as_str(),
        config.user.as_str(),
        config.password.as_str(),
        config.database.as_str(),
    ) {
        Ok(built) => Ok(built),
        Err(e) => Err(AppError::ConnectionFailed { reason: crate::driver::error_text(&e) }),
    }
}

/// The driver's configuration for the connection of a request: the
/// connection is resolved, and the driver's configuration is built for what
/// it resolves to. It fails if and only if no source gives a password.
pub fn from_request(sources: &ConnectionSources) -> (built: Result<neo4rs::Config, AppError>)
    ensures
        match built {
            Ok(c) => password_of(*sources) is Some && c
                == crate::driver::driver_configuration(
                setting_or(sources.uri, default_uri()),
                setting_or(sources.user, default_user()),
                password_of(*sources)->0,
                setting_or(sources.database, default_database()),
            ),
            Err(e) => password_of(*sources) is None && e@.kind
                == ErrorKind::ConnectionNotConfigured,
        },
{
    let config = match connection_config(sources) {
        Ok(config) => config,
        Err(e) => {
            return Err(e);
        },
    };
    driver_config(&config)
}

/// The address and the database that a call is about, for display.
pub fn connection_info(sources: &ConnectionSources) -> (info: (String, String))
    ensures
        info.0@ == setting_or(sources.uri, default_uri()),
        info.1@ == setting_or(sources.database, default_database()),
{
    (resolve_or(&sources.uri, "bolt://localhost:7687"), resolve_or(&sources.database, "neo4j"))
}

} // verus!

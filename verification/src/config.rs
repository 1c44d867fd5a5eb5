//! The part of the configuration that commands are told about through
//! their environment.

use crate::execution::{env_models, EnvVar};
use crate::text::{digits, joined, render_u64};
use vstd::prelude::*;

verus! {

/// The level from which messages are logged.
#[derive(Clone, Copy, Debug, PartialEq, Eq, Structural)]
pub enum LogLevel {
    Error,
    Warn,
    Info,
    Debug,
    Trace,
}

impl LogLevel {
    /// The name of the level, in capitals.
    pub open spec fn name_text(&self) -> Seq<char> {
        match self {
            LogLevel::Error => "ERROR"@,
            LogLevel::Warn => "WARN"@,
            LogLevel::Info => "INFO"@,
            LogLevel::Debug => "DEBUG"@,
            LogLevel::Trace => "TRACE"@,
        }
    }

    /// The name of the level, in capitals.
    pub fn name(&self) -> (r: String)
        ensures
            r@ == self.name_text(),
    {
        match self {
            LogLevel::Error => String::from_str("ERROR"),
            LogLevel::Warn => String::from_str("WARN"),
            LogLevel::Info => String::from_str("INFO"),
            LogLevel::Debug => String::from_str("DEBUG"),
            LogLevel::Trace => String::from_str("TRACE"),
        }
    }
}

/// What of the active configuration a command may know.
#[derive(Debug, PartialEq, Eq)]
pub struct ConfigSnapshot {
    pub host: String,
    pub port: u16,
    pub http_base_path: String,
    pub username: String,
    pub commands_root_directory: String,
    pub logging_level: LogLevel,
}

/// What a `ConfigSnapshot` stands for.
pub struct ConfigModel {
    pub host: Seq<char>,
    pub port: int,
    pub http_base_path: Seq<char>,
    pub username: Seq<char>,
    pub commands_root_directory: Seq<char>,
    pub logging_level: LogLevel,
}

impl View for ConfigSnapshot {
    type V = ConfigModel;

    open spec fn view(&self) -> ConfigModel {
        ConfigModel {
            host: self.host@,
            port: self.port as int,
            http_base_path: self.http_base_path@,
            username: self.username@,
            commands_root_directory: self.commands_root_directory@,
            logging_level: self.logging_level,
        }
    }
}

/// The host that a command reaches the server at: the loopback address
/// where the server listens on every address, else the listening host.
pub open spec fn reachable_host(host: Seq<char>) -> Seq<char> {
    if host == "0.0.0.0"@ {
        "127.0.0.1"@
    } else {
        host
    }
}

/// The variables that tell a command about the configuration, in the order
/// in which they are set.
pub open spec fn environment_of(cfg: ConfigModel) -> Seq<(Seq<char>, Seq<char>)> {
    seq![
        ("RESTCOMMANDER_CONFIG_SERVER_HOST"@, reachable_host(cfg.host)),
        ("RESTCOMMANDER_CONFIG_SERVER_POST"@, digits(cfg.port as nat)),
        ("RESTCOMMANDER_CONFIG_SERVER_HTTP_BASE_PATH"@, cfg.http_base_path),
        ("RESTCOMMANDER_CONFIG_SERVER_USERNAME"@, cfg.username),
        ("RESTCOMMANDER_CONFIG_COMMANDS_ROOT_DIRECTORY"@, cfg.commands_root_directory),
        ("RESTCOMMANDER_CONFIG_LOGGING_LEVEL_NAME"@, cfg.logging_level.name_text()),
    ]
}

/// No two variables of the environment bear the same name.
pub proof fn lemma_environment_names_differ(cfg: ConfigModel)
    ensures
        forall|i: int, j: int|
            0 <= i < j < environment_of(cfg).len() ==> environment_of(cfg)[i].0
                != environment_of(cfg)[j].0,
{
    reveal_strlit("RESTCOMMANDER_CONFIG_SERVER_HOST");
    reveal_strlit("RESTCOMMANDER_CONFIG_SERVER_POST");
    reveal_strlit("RESTCOMMANDER_CONFIG_SERVER_HTTP_BASE_PATH");
    reveal_strlit("RESTCOMMANDER_CONFIG_SERVER_USERNAME");
    reveal_strlit("RESTCOMMANDER_CONFIG_COMMANDS_ROOT_DIRECTORY");
    reveal_strlit("RESTCOMMANDER_CONFIG_LOGGING_LEVEL_NAME");
    let names = environment_of(cfg);
    assert(names[0].0.len() == 32 && names[1].0.len() == 32 && names[2].0.len() == 42);
    assert(names[3].0.len() == 36 && names[4].0.len() == 44 && names[5].0.len() == 39);
    assert(names[0].0[28] == 'H' && names[1].0[28] == 'P');
}

fn variable(suffix: &str, value: String) -> (r: EnvVar)
    ensures
        r@ == ("RESTCOMMANDER_CONFIG_"@ + suffix@, value@),
{
    EnvVar { name: joined("RESTCOMMANDER_CONFIG_", suffix), value }
}

/// The variables that a command is run with: the host and the port of the
/// server, its base path and user name, the root directory of the commands
/// and the logging level, each under a name that begins with
/// `RESTCOMMANDER_CONFIG_`.
pub fn make_environment_variables_map(cfg: &ConfigSnapshot) -> (r: Vec<EnvVar>)
    ensures
        env_models(r@) == environment_of(cfg@),
{
    let host = if cfg.host == String::from_str("0.0.0.0") {
        String::from_str("127.0.0.1")
    } else {
        cfg.host.clone()
    };
    let mut vars: Vec<EnvVar> = Vec::new();
    vars.push(variable("SERVER_HOST", host));
    vars.push(variable("SERVER_POST", render_u64(cfg.port as u64)));
    vars.push(variable("SERVER_HTTP_BASE_PATH", cfg.http_base_path.clone()));
    vars.push(variable("SERVER_USERNAME", cfg.username.clone()));
    vars.push(variable("COMMANDS_ROOT_DIRECTORY", cfg.commands_root_directory.clone()));
    vars.push(variable("LOGGING_LEVEL_NAME", cfg.logging_level.name()));
    proof {
        reveal_strlit("RESTCOMMANDER_CONFIG_");
        reveal_strlit("SERVER_HOST");
        reveal_strlit("SERVER_POST");
        reveal_strlit("SERVER_HTTP_BASE_PATH");
        reveal_strlit("SERVER_USERNAME");
        reveal_strlit("COMMANDS_ROOT_DIRECTORY");
        reveal_strlit("LOGGING_LEVEL_NAME");
        reveal_strlit("RESTCOMMANDER_CONFIG_SERVER_HOST");
        reveal_strlit("RESTCOMMANDER_CONFIG_SERVER_POST");
        reveal_strlit("RESTCOMMANDER_CONFIG_SERVER_HTTP_BASE_PATH");
        reveal_strlit("RESTCOMMANDER_CONFIG_SERVER_USERNAME");
        reveal_strlit("RESTCOMMANDER_CONFIG_COMMANDS_ROOT_DIRECTORY");
        reveal_strlit("RESTCOMMANDER_CONFIG_LOGGING_LEVEL_NAME");
        assert("RESTCOMMANDER_CONFIG_"@ + "SERVER_HOST"@ =~= "RESTCOMMANDER_CONFIG_SERVER_HOST"@);
        assert("RESTCOMMANDER_CONFIG_"@ + "SERVER_POST"@ =~= "RESTCOMMANDER_CONFIG_SERVER_POST"@);
        assert("RESTCOMMANDER_CONFIG_"@ + "SERVER_HTTP_BASE_PATH"@
            =~= "RESTCOMMANDER_CONFIG_SERVER_HTTP_BASE_PATH"@);
        assert("RESTCOMMANDER_CONFIG_"@ + "SERVER_USERNAME"@
            =~= "RESTCOMMANDER_CONFIG_SERVER_USERNAME"@);
        assert("RESTCOMMANDER_CONFIG_"@ + "COMMANDS_ROOT_DIRECTORY"@
            =~= "RESTCOMMANDER_CONFIG_COMMANDS_ROOT_DIRECTORY"@);
        assert("RESTCOMMANDER_CONFIG_"@ + "LOGGING_LEVEL_NAME"@
            =~= "RESTCOMMANDER_CONFIG_LOGGING_LEVEL_NAME"@);
        assert(env_models(vars@) =~= environment_of(cfg@));
    }
    vars
}

} // verus!

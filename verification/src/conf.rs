//! The server's configuration values and the decisions made over them: how
//! the template-target port is displayed, and which logging level a setting
//! names.

use crate::time::str_eq;
use vstd::prelude::*;
use vstd::string::StringExecFns;

verus! {

/// The configuration values that the server runs with.
pub struct ConfVars {
    pub server_address: String,
    pub server_port: String,
    pub server_protocol: String,
    pub hbs_target_address: String,
    pub hbs_target_port: String,
}

/// How the template-target port is displayed in rendered links: dropped for
/// the default port and for any named port, and shown with a leading colon
/// only when the setting was empty.
pub open spec fn spec_hbs_port_display(port: Seq<char>) -> Seq<char> {
    if port == "80"@ || port != ""@ {
        ""@
    } else {
        ":"@ + port
    }
}

/// Assembles the configuration from the looked-up settings, normalising the
/// template-target port for display.
pub fn set_env_vars(
    server_address: String,
    server_port: String,
    server_protocol: String,
    hbs_target_address: String,
    hbs_target_port: String,
) -> (r: ConfVars)
    ensures
        r.server_address == server_address,
        r.server_port == server_port,
        r.server_protocol == server_protocol,
        r.hbs_target_address == hbs_target_address,
        r.hbs_target_port@ == spec_hbs_port_display(hbs_target_port@),
{
    let display_port: String = if str_eq(hbs_target_port.as_str(), "80") || !str_eq(
        hbs_target_port.as_str(),
        "",
    ) {
        proof {
            reveal_strlit("");
            assert(""@ =~= Seq::<char>::empty());
        }
        String::new()
    } else {
        let mut p = ":".to_owned();
        p.append(hbs_target_port.as_str());
        p
    };
    ConfVars {
        server_address,
        server_port,
        server_protocol,
        hbs_target_address,
        hbs_target_port: display_port,
    }
}

/// How much the logs show.
#[derive(Clone, Copy, Debug, PartialEq, Eq, Structural)]
pub enum LogLevel {
    Off,
    Error,
    Warn,
    Info,
    Debug,
    Trace,
}

/// The logging level that a setting names; anything unrecognised means the
/// chattiest ordinary level.
pub open spec fn spec_log_level(s: Seq<char>) -> LogLevel {
    if s == "off"@ {
        LogLevel::Off
    } else if s == "error"@ {
        LogLevel::Error
    } else if s == "warn"@ {
        LogLevel::Warn
    } else if s == "info"@ {
        LogLevel::Info
    } else if s == "debug"@ {
        LogLevel::Debug
    } else if s == "trace"@ {
        LogLevel::Trace
    } else {
        LogLevel::Debug
    }
}

/// Maps a logging setting to the level it names.
pub fn get_log_level(log_level: &str) -> (r: LogLevel)
    ensures
        r == spec_log_level(log_level@),
{
    if str_eq(log_level, "off") {
        LogLevel::Off
    } else if str_eq(log_level, "error") {
        LogLevel::Error
    } else if str_eq(log_level, "warn") {
        LogLevel::Warn
    } else if str_eq(log_level, "info") {
        LogLevel::Info
    } else if str_eq(log_level, "debug") {
        LogLevel::Debug
    } else if str_eq(log_level, "trace") {
        LogLevel::Trace
    } else {
        LogLevel::Debug
    }
}

} // verus!

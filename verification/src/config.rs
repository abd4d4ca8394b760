use vstd::prelude::*;
use vstd::string::StringExecFns;
use crate::text::str_eq;

verus! {

/// The request one invocation carries: read the active profile, or promote a
/// chosen one.
pub enum Config {
    Get(GetConfig),
    SetCmd(SetConfig),
}

pub struct GetConfig {
    pub credentials_path: String,
    pub config_path: String,
}

pub struct SetConfig {
    pub credentials_path: String,
    pub config_path: String,
    pub pattern: String,
}

/// The value of an optional argument, or its default.
pub open spec fn spec_arg_or(value: Option<String>, default_value: Seq<char>) -> Seq<char> {
    match value {
        Some(v) => v@,
        None => default_value,
    }
}

/// Returns the given argument value, falling back to `default_value`.
pub fn get_arg(value: Option<String>, default_value: &str) -> (r: String)
    ensures
        r@ == spec_arg_or(value, default_value@),
{
    match value {
        Some(v) => v,
        None => String::from_str(default_value),
    }
}

impl Config {
    /// Builds the configuration for the chosen subcommand; paths absent from
    /// the arguments fall back to the conventional user-scoped files.
    pub fn new(
        subcommand: &str,
        credentials_path: Option<String>,
        config_path: Option<String>,
        pattern: Option<String>,
    ) -> (r: Option<Config>)
        ensures
            subcommand@ == "get"@ ==> (r matches Some(Config::Get(g))
                && g.credentials_path@ == spec_arg_or(credentials_path, "~/.aws/credentials"@)
                && g.config_path@ == spec_arg_or(config_path, "~/.aws/config"@)),
            subcommand@ != "get"@ && subcommand@ == "set"@ ==> (r matches Some(Config::SetCmd(s))
                && s.credentials_path@ == spec_arg_or(credentials_path, "~/.aws/credentials"@)
                && s.config_path@ == spec_arg_or(config_path, "~/.aws/config"@)
                && s.pattern@ == spec_arg_or(pattern, ""@)),
            subcommand@ != "get"@ && subcommand@ != "set"@ ==> r is None,
    {
        if str_eq(subcommand, "get") {
            Some(Config::Get(GetConfig {
                credentials_path: get_arg(credentials_path, "~/.aws/credentials"),
                config_path: get_arg(config_path, "~/.aws/config"),
            }))
        } else if str_eq(subcommand, "set") {
            Some(Config::SetCmd(SetConfig {
                credentials_path: get_arg(credentials_path, "~/.aws/credentials"),
                config_path: get_arg(config_path, "~/.aws/config"),
                pattern: get_arg(pattern, ""),
            }))
        } else {
            None
        }
    }
}

} // verus!

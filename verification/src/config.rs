//! What the program is configured with.

use vstd::prelude::*;
use vstd::string::StringExecFns;
use crate::text::{after_prefix, strip_prefix};

verus! {

/// The settings of a running program.
#[derive(Clone, Debug, PartialEq, Eq)]
pub struct Config {
    /// The token with which the program signs in to the messaging surface.
    pub discord_token: String,
    /// The version that the program shows of itself.
    pub version: String,
}

impl Config {
    /// The settings from a token and, where one is set, a version. Without
    /// a version the program shows `Unknown`.
    pub fn new(discord_token: String, version: Option<String>) -> (config: Config)
        ensures
            config.discord_token == discord_token,
            match version {
                Some(v) => config.version == v,
                None => config.version@ == "Unknown"@,
            },
    {
        let version = match version {
            Some(v) => v,
            None => String::from_str("Unknown"),
        };
        Config { discord_token, version }
    }

    /// The line that shows the version: the version itself where it begins
    /// with `v`, and `Version - ` before it elsewhere.
    pub fn version_line(&self) -> (line: String)
        ensures
            line@ == if after_prefix(self.version@, "v"@) is Some {
                self.version@
            } else {
                "Version - "@ + self.version@
            },
    {
        match strip_prefix(self.version.as_str(), "v") {
            Some(_) => self.version.clone(),
            None => String::from_str("Version - ").concat(self.version.as_str()),
        }
    }
}

} // verus!

use vstd::prelude::*;
use vstd::string::StringExecFns;

use crate::strutil::str_eq;

verus! {

/// Why a flag combination is rejected before any scan happens.
#[derive(Clone, Copy, PartialEq, Eq, Structural, Debug)]
pub enum ConfigurationError {
    /// Ignore mode was requested together with a scan root other than the
    /// current directory.
    IgnoreOutsideCurrentDir,
}

impl ConfigurationError {
    /// The user-facing diagnostic for this error.
    pub fn message(&self) -> (m: String)
        ensures
            m@ == "Cannot use -i with another directory other than the current one."@,
    {
        String::from_str("Cannot use -i with another directory other than the current one.")
    }
}

/// A validated run configuration: the scan root and whether ignore-mode
/// filtering is on.
#[derive(Debug)]
pub struct Config {
    pub path: String,
    pub ignore: bool,
}

/// Whether a path names the current directory — the only scan root that
/// ignore mode admits.
pub open spec fn spec_is_current_dir(path: Seq<char>) -> bool {
    path == "."@ || path == "./"@
}

/// Check the flag combination. Ignore mode with any root but the current
/// directory is a configuration error and nothing is scanned; every other
/// combination passes through unchanged.
pub fn validate_config(path: String, ignore: bool) -> (r: Result<Config, ConfigurationError>)
    ensures
        match r {
            Ok(c) => {
                &&& c.path@ == path@
                &&& c.ignore == ignore
                &&& ignore ==> spec_is_current_dir(path@)
            },
            Err(e) => {
                &&& ignore
                &&& !spec_is_current_dir(path@)
                &&& e is IgnoreOutsideCurrentDir
            },
        },
{
    if ignore && !(str_eq(path.as_str(), ".") || str_eq(path.as_str(), "./")) {
        Err(ConfigurationError::IgnoreOutsideCurrentDir)
    } else {
        Ok(Config { path, ignore })
    }
}

} // verus!

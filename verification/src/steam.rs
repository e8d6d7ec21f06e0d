//! Locating the target platform's install directory.
//!
//! The target platform (Steam) is located with the same registry-then-path
//! strategy as launcher detection, except that its registry probe reads a
//! value — the reported install directory — rather than a mere key. The
//! resolution itself is a pure function of what the probes observed; the
//! caller performs the OS lookups and hands their outcomes over.

use vstd::prelude::*;
use vstd::string::StringExecFns;
use crate::model::opt_str_view;

verus! {

/// The registry key, machine scope, that reports the platform's install.
pub fn steam_registry_key() -> (r: String)
    ensures
        r@ == "SOFTWARE\\WOW6432Node\\Valve\\Steam"@,
{
    String::from_str("SOFTWARE\\WOW6432Node\\Valve\\Steam")
}

/// The value under the registry key that holds the install directory.
pub fn steam_registry_value_name() -> (r: String)
    ensures
        r@ == "InstallPath"@,
{
    String::from_str("InstallPath")
}

/// The platform's first fallback directory.
pub open spec fn spec_steam_primary_path() -> Seq<char> {
    "C:\\Program Files (x86)\\Steam"@
}

/// The platform's second fallback directory.
pub open spec fn spec_steam_secondary_path() -> Seq<char> {
    "C:\\Program Files\\Steam"@
}

/// The platform's fallback directories, in the order they are tried.
pub fn steam_fallback_paths() -> (r: (String, String))
    ensures
        r.0@ == spec_steam_primary_path(),
        r.1@ == spec_steam_secondary_path(),
{
    (
        String::from_str("C:\\Program Files (x86)\\Steam"),
        String::from_str("C:\\Program Files\\Steam"),
    )
}

/// Resolution policy: the registry-reported directory wins whenever the
/// registry probe yielded one; otherwise the first existing fallback
/// directory; otherwise nothing.
pub open spec fn spec_steam_path(
    registry_value: Option<Seq<char>>,
    primary_exists: bool,
    secondary_exists: bool,
) -> Option<Seq<char>> {
    if registry_value is Some {
        registry_value
    } else if primary_exists {
        Some(spec_steam_primary_path())
    } else if secondary_exists {
        Some(spec_steam_secondary_path())
    } else {
        None
    }
}

/// Resolves the platform's install directory from the probe outcomes:
/// `registry_value` is the directory the registry reported, if any, and the
/// two flags say which fallback directories exist on disk.
pub fn get_steam_path(
    registry_value: Option<String>,
    primary_exists: bool,
    secondary_exists: bool,
) -> (r: Option<String>)
    ensures
        opt_str_view(r) == spec_steam_path(
            opt_str_view(registry_value),
            primary_exists,
            secondary_exists,
        ),
{
    match registry_value {
        Some(p) => Some(p),
        None => {
            let (primary, secondary) = steam_fallback_paths();
            if primary_exists {
                Some(primary)
            } else if secondary_exists {
                Some(secondary)
            } else {
                None
            }
        },
    }
}

/// Law: when both the registry and the filesystem report an install, even
/// disagreeing ones, the registry-reported directory is preferred.
pub proof fn lemma_steam_registry_preferred(
    reported: Seq<char>,
    primary_exists: bool,
    secondary_exists: bool,
)
    ensures
        spec_steam_path(Some(reported), primary_exists, secondary_exists) == Some(reported),
{
}

} // verus!

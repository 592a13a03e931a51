//! Candidate directory resolution.
//!
//! Each function computes one candidate location from the plain values the
//! platform service supplies: the running binary's path, a home or profile
//! directory, and whether a base directory exists on disk. Each is
//! independently fallible; the search in `search` consumes their outcomes in
//! the fixed priority order.

use vstd::prelude::*;
use vstd::string::*;

use crate::error::Error;
use crate::paths::{
    join_exe_file_stem, join_path, parent_dir, spec_exe_stem, spec_join, spec_parent,
};

verus! {

/// The three operating-system families the resolution order distinguishes.
#[derive(Clone, Copy, Debug, PartialEq, Eq, Structural)]
pub enum Platform {
    /// Windows: per-user and all-users directories come from environment
    /// variables.
    Windows,
    /// A standard Unix: per-user configuration lives under `~/.config`, the
    /// system-wide cache under `/var/cache`.
    Unix,
    /// The bundled-application Unix variant: applications may run from
    /// inside a bundle with their own resource directory.
    MacOs,
}

/// `s` ends with `suffix`.
pub open spec fn spec_ends_with(s: Seq<char>, suffix: Seq<char>) -> bool {
    suffix.len() <= s.len() && s.subrange(s.len() - suffix.len(), s.len() as int) == suffix
}

/// Whether `s` ends with `suffix`, per `spec_ends_with`.
pub fn ends_with_str(s: &str, suffix: &str) -> (r: bool)
    ensures
        r == spec_ends_with(s@, suffix@),
{
    let n = s.unicode_len();
    let m = suffix.unicode_len();
    if m > n {
        return false;
    }
    let mut i: usize = 0;
    while i < m
        invariant
            0 <= i <= m <= n,
            n == s@.len(),
            m == suffix@.len(),
            forall|k: int| 0 <= k < i ==> s@[n - m + k] == suffix@[k],
        decreases m - i,
    {
        if s.get_char(n - m + i) != suffix.get_char(i) {
            assert(!spec_ends_with(s@, suffix@)) by {
                if spec_ends_with(s@, suffix@) {
                    assert(s@.subrange(n - m, n as int)[i as int] == suffix@[i as int]);
                }
            }
            return false;
        }
        i = i + 1;
    }
    assert(s@.subrange(n - m, n as int) =~= suffix@);
    true
}

/// The directory that contains the running binary.
///
/// `exe` is the platform's lookup of the binary's own path; a failed lookup
/// is passed through, and a path without a parent is a `NotFound` outcome.
pub fn current_bin_dir(exe: &Result<String, Error>) -> (r: Result<String, Error>)
    ensures
        match exe {
            Ok(p) => match spec_parent(p@) {
                Some(d) => r matches Ok(dir) && dir@ == d,
                None => r matches Err(e) && e is NotFound && e.spec_message() == "Current bin dir"@,
            },
            Err(e) => r matches Err(e2) && e2 == e,
        },
{
    match exe {
        Ok(p) => {
            match parent_dir(p.as_str()) {
                Some(dir) => Ok(dir),
                None => Err(Error::NotFound(String::from_str("Current bin dir"))),
            }
        },
        Err(e) => Err(e.clone()),
    }
}

/// The resource directory of the bundle the binary runs from, per
/// `bundle_resource_dir`.
pub open spec fn spec_bundle_resource_dir(platform: Platform, exe: Result<String, Error>) -> Option<
    Seq<char>,
> {
    if platform != Platform::MacOs {
        None
    } else {
        match exe {
            Ok(p) => match spec_parent(p@) {
                Some(d) => if spec_ends_with(d, ".app/Contents/MacOS"@) {
                    match spec_parent(d) {
                        Some(g) => Some(spec_join(g, "Resources"@)),
                        None => None,
                    }
                } else {
                    None
                },
                None => None,
            },
            Err(_) => None,
        }
    }
}

/// The directory holding the resources of the bundle the binary runs from.
///
/// Only the bundled-application platform has one, and only when the binary's
/// directory lies inside a bundle; everywhere else the outcome is an error,
/// so resolution falls through to the next candidate.
pub fn bundle_resource_dir(platform: Platform, exe: &Result<String, Error>) -> (r: Result<
    String,
    Error,
>)
    ensures
        match spec_bundle_resource_dir(platform, *exe) {
            Some(d) => r matches Ok(dir) && dir@ == d,
            None => r is Err,
        },
        platform != Platform::MacOs ==> (r matches Err(e) && e is NotFound),
        platform == Platform::MacOs && exe is Err ==> (r matches Err(e) && exe matches Err(e0) && e
            == e0),
        platform == Platform::MacOs && (exe matches Ok(p) && spec_parent(p@) is None) ==> (
        r matches Err(e) && e is NotFound && e.spec_message() == "Bundle resources directory"@),
        platform == Platform::MacOs && (exe matches Ok(p) && spec_parent(p@) matches Some(d)
            && !spec_ends_with(d, ".app/Contents/MacOS"@)) ==> (r matches Err(e) && e is NotFound
            && e.spec_message() == "Not inside an Application Bundle"@),
{
    match platform {
        Platform::MacOs => {
            match exe {
                Ok(p) => {
                    match parent_dir(p.as_str()) {
                        Some(bundle_dir) => {
                            if !ends_with_str(bundle_dir.as_str(), ".app/Contents/MacOS") {
                                Err(
                                    Error::NotFound(
                                        String::from_str("Not inside an Application Bundle"),
                                    ),
                                )
                            } else {
                                match parent_dir(bundle_dir.as_str()) {
                                    Some(g) => Ok(join_path(g.as_str(), "Resources")),
                                    None => Err(
                                        Error::NotFound(
                                            String::from_str("Bundle resource directory"),
                                        ),
                                    ),
                                }
                            }
                        },
                        None => Err(
                            Error::NotFound(String::from_str("Bundle resources directory")),
                        ),
                    }
                },
                Err(e) => Err(e.clone()),
            }
        },
        _ => Err(
            Error::NotFound(
                String::from_str("Bundle resource directory only applicable to MacOs"),
            ),
        ),
    }
}

/// Relies on dirs::home_dir: the platform service's lookup of the current
/// user's home directory, converted to a plain string. The outcome depends
/// on the environment, so nothing is promised of it; the resolution
/// functions take the returned value as an argument and are verified for
/// every value of it.
#[verifier::external_body]
fn home_dir_lookup() -> (r: Option<String>) {
    dirs::home_dir().and_then(|p| p.to_str().map(|s| s.to_string()))
}

/// The per-user profile root the resolver builds on: on Windows the
/// `APPDATA` environment value, handed in by the shell; elsewhere the home
/// directory, looked up from the platform service.
pub fn profile_root(platform: Platform, appdata: &Option<String>) -> (r: Option<String>)
    ensures
        platform == Platform::Windows ==> r == *appdata,
{
    match platform {
        Platform::Windows => {
            match appdata {
                Some(p) => Some(p.clone()),
                None => None,
            }
        },
        _ => home_dir_lookup(),
    }
}

/// The base directory under which the per-user application directory lives,
/// before the per-application stem is appended and before its existence is
/// checked.
///
/// `profile` is the platform's lookup of the per-user root: the `APPDATA`
/// environment variable on Windows, the home directory elsewhere. A missing
/// variable is an environment-lookup failure; a missing home directory is a
/// `NotFound` outcome.
pub fn user_app_base(platform: Platform, profile: &Option<String>) -> (r: Result<String, Error>)
    ensures
        match (platform, profile) {
            (Platform::Windows, Some(p)) => r matches Ok(b) && b@ == p@,
            (Platform::Windows, None) => r matches Err(e) && e is EnvironmentLookup,
            (Platform::Unix, Some(h)) => r matches Ok(b) && b@ == spec_join(h@, ".config"@),
            (Platform::MacOs, Some(h)) => r matches Ok(b) && b@ == spec_join(
                h@,
                "Library/Application Support"@,
            ),
            (_, None) => r matches Err(e) && e is NotFound && e.spec_message()
                == "Home directory not found."@,
        },
{
    match platform {
        Platform::Windows => {
            match profile {
                Some(p) => Ok(p.clone()),
                None => Err(
                    Error::EnvironmentLookup(String::from_str("environment variable not found")),
                ),
            }
        },
        Platform::Unix => {
            match profile {
                Some(h) => Ok(join_path(h.as_str(), ".config")),
                None => Err(Error::NotFound(String::from_str("Home directory not found."))),
            }
        },
        Platform::MacOs => {
            match profile {
                Some(h) => Ok(join_path(h.as_str(), "Library/Application Support")),
                None => Err(Error::NotFound(String::from_str("Home directory not found."))),
            }
        },
    }
}

/// The per-user application directory: the user base extended with the
/// binary's stem.
///
/// `base` is the outcome of `user_app_base`; `base_exists` says whether that
/// directory was found on disk; `exe` is the platform's lookup of the
/// binary's path. A base that does not exist is a `NotFound` outcome, and
/// resolution falls through to the next candidate.
pub fn user_app_dir(
    base: &Result<String, Error>,
    base_exists: bool,
    exe: &Result<String, Error>,
) -> (r: Result<String, Error>)
    ensures
        match base {
            Err(e) => r matches Err(e2) && e2 == e,
            Ok(b) => if !base_exists {
                r matches Err(e) && e is NotFound && e.spec_message()
                    == "Global user app directory not found."@
            } else {
                match spec_exe_stem(*exe) {
                    Some(stem) => r matches Ok(d) && d@ == spec_join(b@, stem),
                    None => r matches Err(e) && e is NotFound,
                }
            },
        },
{
    match base {
        Err(e) => Err(e.clone()),
        Ok(b) => {
            if !base_exists {
                Err(Error::NotFound(String::from_str("Global user app directory not found.")))
            } else {
                join_exe_file_stem(b.as_str(), exe)
            }
        },
    }
}

/// The base directory of the system-wide cache, before the per-application
/// stem is appended and before its existence is checked.
///
/// `all_users` is the platform's lookup of the `ALLUSERSPROFILE` environment
/// variable; only Windows reads it, the other platforms use a fixed path.
pub fn system_cache_base(platform: Platform, all_users: &Option<String>) -> (r: Result<
    String,
    Error,
>)
    ensures
        match (platform, all_users) {
            (Platform::Windows, Some(p)) => r matches Ok(b) && b@ == p@,
            (Platform::Windows, None) => r matches Err(e) && e is EnvironmentLookup,
            (Platform::Unix, _) => r matches Ok(b) && b@ == "/var/cache"@,
            (Platform::MacOs, _) => r matches Ok(b) && b@ == "/Library/Application Support"@,
        },
{
    match platform {
        Platform::Windows => {
            match all_users {
                Some(p) => Ok(p.clone()),
                None => Err(
                    Error::EnvironmentLookup(String::from_str("environment variable not found")),
                ),
            }
        },
        Platform::Unix => Ok(String::from_str("/var/cache")),
        Platform::MacOs => Ok(String::from_str("/Library/Application Support")),
    }
}

/// The system-wide cache directory available to all users: the cache base
/// extended with the binary's stem.
///
/// `base` is the outcome of `system_cache_base`; `base_exists` says whether
/// that directory was found on disk. This is the final candidate of every
/// resolution order, so its failure is the one surfaced when the whole
/// search is exhausted.
pub fn system_cache_dir(
    base: &Result<String, Error>,
    base_exists: bool,
    exe: &Result<String, Error>,
) -> (r: Result<String, Error>)
    ensures
        match base {
            Err(e) => r matches Err(e2) && e2 == e,
            Ok(b) => if !base_exists {
                r matches Err(e) && e is NotFound && e.spec_message()
                    == "Global system cache directory not found."@
            } else {
                match spec_exe_stem(*exe) {
                    Some(stem) => r matches Ok(d) && d@ == spec_join(b@, stem),
                    None => r matches Err(e) && e is NotFound,
                }
            },
        },
{
    match base {
        Err(e) => Err(e.clone()),
        Ok(b) => {
            if !base_exists {
                Err(Error::NotFound(String::from_str("Global system cache directory not found.")))
            } else {
                join_exe_file_stem(b.as_str(), exe)
            }
        },
    }
}

} // verus!

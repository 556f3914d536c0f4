//! Decides which backend driver applies to the current host.
use vstd::prelude::*;
use crate::store::opt_text;
use crate::text::{contains, has_substring, lower_of, lowercase};

verus! {

/// The closed set of configuration backends.
#[derive(Clone, Copy, Debug, PartialEq, Eq, Structural)]
pub enum EnvironmentKind {
    Gnome,
    Kde,
    GenericUnix,
    Windows,
}

/// Classification of an already lower-cased desktop session name.
pub open spec fn desktop_kind(lowered: Seq<char>) -> EnvironmentKind {
    if has_substring(lowered, "gnome"@) {
        EnvironmentKind::Gnome
    } else if has_substring(lowered, "kde"@) {
        EnvironmentKind::Kde
    } else {
        EnvironmentKind::GenericUnix
    }
}

/// The backend for a host: Windows on Windows, otherwise by the lower-cased
/// desktop session name, with the generic fallback when none is set.
pub open spec fn environment_kind(is_windows: bool, desktop: Option<Seq<char>>) -> EnvironmentKind {
    if is_windows {
        EnvironmentKind::Windows
    } else {
        match desktop {
            Some(d) => desktop_kind(lower_of(d)),
            None => EnvironmentKind::GenericUnix,
        }
    }
}

/// Classifies a lower-cased desktop session name by substring.
pub fn classify_desktop(lowered: &str) -> (r: EnvironmentKind)
    ensures
        r == desktop_kind(lowered@),
{
    if contains(lowered, "gnome") {
        EnvironmentKind::Gnome
    } else if contains(lowered, "kde") {
        EnvironmentKind::Kde
    } else {
        EnvironmentKind::GenericUnix
    }
}

/// Detects the backend from the OS identity and the desktop session name.
pub fn detect(is_windows: bool, desktop: &Option<String>) -> (r: EnvironmentKind)
    ensures
        r == environment_kind(is_windows, opt_text(*desktop)),
{
    if is_windows {
        return EnvironmentKind::Windows;
    }
    match desktop {
        Some(d) => {
            let lowered = lowercase(d.as_str());
            classify_desktop(lowered.as_str())
        },
        None => EnvironmentKind::GenericUnix,
    }
}

} // verus!

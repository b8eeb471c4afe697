//! Operating-system support requirement: the host's name and version must
//! match a fixed allow-list.  An entry with no versions (a rolling-release
//! distribution) accepts any version of that system.

use vstd::prelude::*;
use vstd::string::*;

use crate::requirements::{CheckResult, Requirement};
use crate::strings::str_eq;

verus! {

/// The allow-list, as a predicate over the lowercased system name and
/// version.
pub open spec fn os_supported(name: Seq<char>, version: Seq<char>) -> bool {
    ||| (name == "debian"@ && (version == "10"@ || version == "11"@))
    ||| (name == "rhel"@ && (version == "7"@ || version == "8"@ || version == "9"@))
    ||| (name == "rocky"@ && version == "8.5"@)
    ||| (name == "suse"@ && (version == "12"@ || version == "15"@))
    ||| (name == "ubuntu"@ && (version == "18.04"@ || version == "20.04"@ || version == "22.04"@))
    ||| (name == "windows"@ && (version == "2012"@ || version == "2012 R2"@ || version == "2016"@
        || version == "2019"@ || version == "2022"@))
    ||| name == "fedora"@
}

/// Outcome of the operating-system support check.
pub struct OsCheckResult {
    pub os_name: String,
    pub os_version: String,
    pub is_supported: bool,
}

impl CheckResult for OsCheckResult {
    open spec fn spec_passed(&self) -> bool {
        self.is_supported
    }

    fn passed(&self) -> (r: bool) {
        self.is_supported
    }
}

/// The operating-system support requirement.  Not fixable.
#[derive(Debug)]
pub struct OSSupportRequirement;

impl Requirement for OSSupportRequirement {
    open spec fn spec_fixable(&self) -> bool {
        false
    }

    fn fixable(&self) -> (r: bool) {
        false
    }
}

/// Evaluate the operating-system support requirement.  The caller passes the
/// host's system name and version, already lowercased.
pub fn check_os_support(os_name: &str, os_version: &str) -> (r: OsCheckResult)
    ensures
        r.os_name@ == os_name@,
        r.os_version@ == os_version@,
        r.is_supported == os_supported(os_name@, os_version@),
{
    let is_supported = (str_eq(os_name, "debian") && (str_eq(os_version, "10") || str_eq(
        os_version,
        "11",
    ))) || (str_eq(os_name, "rhel") && (str_eq(os_version, "7") || str_eq(os_version, "8")
        || str_eq(os_version, "9"))) || (str_eq(os_name, "rocky") && str_eq(os_version, "8.5")) || (
    str_eq(os_name, "suse") && (str_eq(os_version, "12") || str_eq(os_version, "15"))) || (str_eq(
        os_name,
        "ubuntu",
    ) && (str_eq(os_version, "18.04") || str_eq(os_version, "20.04") || str_eq(
        os_version,
        "22.04",
    ))) || (str_eq(os_name, "windows") && (str_eq(os_version, "2012") || str_eq(
        os_version,
        "2012 R2",
    ) || str_eq(os_version, "2016") || str_eq(os_version, "2019") || str_eq(os_version, "2022")))
        || str_eq(os_name, "fedora");
    OsCheckResult {
        os_name: os_name.to_owned(),
        os_version: os_version.to_owned(),
        is_supported,
    }
}

} // verus!

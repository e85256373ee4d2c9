//! Classifying the host device from probe observations: machine
//! architecture, root access, the flavour of `su` present, and the
//! platform version.

use vstd::prelude::*;
use vstd::string::*;
use crate::text::contains_seq;
use crate::text::lower_of;
use crate::text::lowercase;
use crate::text::spec_trim;
use crate::text::str_contains;
use crate::text::str_eq;
use crate::text::trim_str;

verus! {

/// What was learned about the host device.
pub struct DeviceInfo {
    pub arch: String,
    pub is_root: bool,
    pub can_su: bool,
    pub root_type: String,
    pub android_ver: String,
}

/// The root flavour read from a lowered `su` version banner: the
/// first matching known implementation, else a generic label holding
/// the banner verbatim.
pub open spec fn spec_root_type(version: Seq<char>, lowered: Seq<char>) -> Seq<char> {
    if contains_seq(lowered, "magisk"@) {
        "Magisk"@
    } else if contains_seq(lowered, "kernelsu"@) {
        "KernelSU"@
    } else if contains_seq(lowered, "apatch"@) {
        "APatch"@
    } else {
        "Generic ("@ + version + ")"@
    }
}

/// Classifies a `su` version banner, given the banner and its
/// lower-cased form.
pub fn root_type_of_lowered(version: &str, lowered: &str) -> (r: String)
    ensures
        r@ == spec_root_type(version@, lowered@),
{
    if str_contains(lowered, "magisk") {
        String::from_str("Magisk")
    } else if str_contains(lowered, "kernelsu") {
        String::from_str("KernelSU")
    } else if str_contains(lowered, "apatch") {
        String::from_str("APatch")
    } else {
        let mut r = String::from_str("Generic (");
        r.append(version);
        r.append(")");
        r
    }
}

impl DeviceInfo {
    /// Assembles the device record from raw probe observations: the
    /// machine architecture, the output of an effective-user-id query
    /// (when it ran), the banner of a successful `su` version query
    /// (when one succeeded), whether a hidden `su` binary responded
    /// instead, and the platform version string (when readable).
    pub fn new(
        arch: String,
        uid_output: Option<String>,
        su_version_output: Option<String>,
        hidden_su_found: bool,
        android_version_output: Option<String>,
    ) -> (r: DeviceInfo)
        ensures
            r.arch@ == arch@,
            r.is_root == match uid_output {
                Some(u) => spec_trim(u@) == "0"@,
                None => false,
            },
            match su_version_output {
                Some(v) => r.can_su && r.root_type@ == spec_root_type(
                    spec_trim(v@),
                    lower_of(spec_trim(v@)),
                ),
                None => if hidden_su_found {
                    r.can_su && r.root_type@ == "Hidden/Systemless Root"@
                } else {
                    !r.can_su && r.root_type@ == "None"@
                },
            },
            r.android_ver@ == match android_version_output {
                Some(a) => spec_trim(a@),
                None => "Unknown"@,
            },
    {
        let is_root = match &uid_output {
            Some(u) => str_eq(trim_str(u.as_str()), "0"),
            None => false,
        };
        let (can_su, root_type) = match &su_version_output {
            Some(v) => {
                let trimmed = trim_str(v.as_str());
                let lowered = lowercase(trimmed);
                (true, root_type_of_lowered(trimmed, lowered.as_str()))
            },
            None => if hidden_su_found {
                (true, String::from_str("Hidden/Systemless Root"))
            } else {
                (false, String::from_str("None"))
            },
        };
        let android_ver = match &android_version_output {
            Some(a) => String::from_str(trim_str(a.as_str())),
            None => String::from_str("Unknown"),
        };
        DeviceInfo { arch, is_root, can_su, root_type, android_ver }
    }
}

} // verus!

//! Deriving the install target from a distribution record: the target
//! identity string, the install directory, the paired start-script
//! path, and the temporary archive name.

use vstd::prelude::*;
use vstd::string::*;
use crate::distro::Distro;
use crate::text::ascii_lower;
use crate::text::ends_with_seq;
use crate::text::first_word;
use crate::text::first_word_spec;
use crate::text::is_ascii_seq;
use crate::text::lower_of;
use crate::text::lowercase;
use crate::text::str_ends_with;

verus! {

/// The target identity `{family}-{codename}-{version}`, where the
/// family token is the lower-cased first whitespace-delimited word of
/// the display name.
pub open spec fn spec_identity(
    name: Seq<char>,
    codename: Seq<char>,
    version: Seq<char>,
) -> Seq<char> {
    lower_of(first_word_spec(name)) + "-"@ + codename + "-"@ + version
}

/// The install directory for an identity.
pub open spec fn spec_install_path(identity: Seq<char>) -> Seq<char> {
    "/data/local/"@ + identity
}

/// The start-script path paired with an identity.
pub open spec fn spec_start_script_path(identity: Seq<char>) -> Seq<char> {
    "/data/local/start-"@ + identity + ".sh"@
}

/// The temporary archive name, chosen by the URL suffix fast path.
pub open spec fn spec_archive_name(url: Seq<char>) -> Seq<char> {
    if ends_with_seq(url, ".xz"@) {
        "rootfs.tar.xz"@
    } else {
        "rootfs.tar.gz"@
    }
}

/// The on-disk locations derived from one distribution record. The
/// identity must be filesystem-safe; a collision with an existing
/// directory causes destructive replacement before re-provisioning.
pub struct InstallTarget {
    pub identity: String,
    pub install_path: String,
    pub start_script_path: String,
    pub archive_path: String,
}

impl InstallTarget {
    /// The fields are the ones derived from the given record.
    pub open spec fn derived_from(self, d: crate::distro::DistroView) -> bool {
        &&& self.identity@ == spec_identity(d.name, d.codename, d.version)
        &&& self.install_path@ == spec_install_path(self.identity@)
        &&& self.start_script_path@ == spec_start_script_path(self.identity@)
        &&& self.archive_path@ == self.install_path@ + "/"@ + spec_archive_name(d.url)
    }

    /// Derives the install target of a distribution record. The
    /// display name must hold a family token (its first word); ASCII
    /// names lower-case exactly by the ASCII mapping.
    pub fn from_distro(d: &Distro) -> (r: InstallTarget)
        requires
            first_word_spec(d.name@).len() > 0,
        ensures
            r.derived_from(d@),
            is_ascii_seq(first_word_spec(d.name@)) ==> r.identity@ == ascii_lower(
                first_word_spec(d.name@),
            ) + "-"@ + d.codename@ + "-"@ + d.version@,
    {
        let word = match first_word(d.name.as_str()) {
            Some(w) => w,
            None => "",
        };
        let family_token = lowercase(word);
        let mut identity = family_token;
        identity.append("-");
        identity.append(d.codename.as_str());
        identity.append("-");
        identity.append(d.version.as_str());

        let mut install_path = String::from_str("/data/local/");
        install_path.append(identity.as_str());

        let mut start_script_path = String::from_str("/data/local/start-");
        start_script_path.append(identity.as_str());
        start_script_path.append(".sh");

        let mut archive_path = install_path.clone();
        archive_path.append("/");
        if str_ends_with(d.url.as_str(), ".xz") {
            archive_path.append("rootfs.tar.xz");
        } else {
            archive_path.append("rootfs.tar.gz");
        }

        InstallTarget { identity, install_path, start_script_path, archive_path }
    }
}

/// Target derivation is deterministic and pure: records with the same
/// display name, codename, and version always derive the same target
/// identity string.
pub proof fn lemma_identity_deterministic(
    name1: Seq<char>,
    codename1: Seq<char>,
    version1: Seq<char>,
    name2: Seq<char>,
    codename2: Seq<char>,
    version2: Seq<char>,
)
    requires
        name1 == name2,
        codename1 == codename2,
        version1 == version2,
    ensures
        spec_identity(name1, codename1, version1) == spec_identity(name2, codename2, version2),
{
}

} // verus!

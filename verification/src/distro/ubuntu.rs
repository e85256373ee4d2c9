//! The Ubuntu catalog.

use vstd::prelude::*;
use vstd::string::*;
use crate::distro::Distro;
use crate::distro::DistroFamily;
use crate::distro::DistroFamilyView;
use crate::distro::FamilyKind;
use crate::distro::arch_token;
use crate::distro::make_distro;
use crate::distro::spec_arch_token;
use crate::distro::spec_distro;
use crate::distro::spec_splice1;
use crate::distro::spec_splice2;
use crate::distro::splice1;
use crate::distro::splice2;

verus! {

/// The Ubuntu family for a host architecture, as a ghost value.
pub open spec fn spec_family(arch: Seq<char>) -> DistroFamilyView {
    let tok = spec_arch_token(arch, "arm64"@, "amd64"@, "armhf"@);
    DistroFamilyView {
        name: "Ubuntu"@,
        description: "Popular, user-friendly, Debian-based."@,
        variants: seq![
            spec_distro(
                "Ubuntu 20.04 LTS (Focal Fossa)"@,
                "focal"@,
                "20.04.5"@,
                spec_splice1(
                    "https://cdimage.ubuntu.com/ubuntu-base/releases/20.04/release/ubuntu-base-20.04.5-base-"@,
                    tok,
                    ".tar.gz"@,
                ),
                FamilyKind::DebianFamily,
            ),
            spec_distro(
                "Ubuntu 22.04 LTS (Jammy Jellyfish)"@,
                "jammy"@,
                "22.04.5"@,
                spec_splice1(
                    "https://cdimage.ubuntu.com/ubuntu-base/releases/22.04/release/ubuntu-base-22.04.5-base-"@,
                    tok,
                    ".tar.gz"@,
                ),
                FamilyKind::DebianFamily,
            ),
            spec_distro(
                "Ubuntu 24.04 LTS (Noble Numbat)"@,
                "noble"@,
                "24.04.3"@,
                spec_splice1(
                    "https://cdimage.ubuntu.com/ubuntu-base/releases/24.04/release/ubuntu-base-24.04.3-base-"@,
                    tok,
                    ".tar.gz"@,
                ),
                FamilyKind::DebianFamily,
            ),
            spec_distro(
                "Ubuntu 26.04 LTS (Resolute Raccoon)"@,
                "resolute"@,
                "26.04"@,
                spec_splice1(
                    "https://cdimage.ubuntu.com/ubuntu-base/releases/26.04/snapshot1/ubuntu-base-26.04-base-"@,
                    tok,
                    ".tar.gz"@,
                ),
                FamilyKind::DebianFamily,
            ),
        ],
    }
}

/// The Ubuntu family catalog for a host architecture.
pub fn get_family(arch: &str) -> (r: DistroFamily)
    ensures
        r@ == spec_family(arch@),
{
    let tok = arch_token(arch, "arm64", "amd64", "armhf");
    let mut v: Vec<Distro> = Vec::new();
    v.push(
        make_distro(
            "Ubuntu 20.04 LTS (Focal Fossa)",
            "focal",
            "20.04.5",
            splice1(
                "https://cdimage.ubuntu.com/ubuntu-base/releases/20.04/release/ubuntu-base-20.04.5-base-",
                tok,
                ".tar.gz",
            ),
            FamilyKind::DebianFamily,
        ),
    );
    v.push(
        make_distro(
            "Ubuntu 22.04 LTS (Jammy Jellyfish)",
            "jammy",
            "22.04.5",
            splice1(
                "https://cdimage.ubuntu.com/ubuntu-base/releases/22.04/release/ubuntu-base-22.04.5-base-",
                tok,
                ".tar.gz",
            ),
            FamilyKind::DebianFamily,
        ),
    );
    v.push(
        make_distro(
            "Ubuntu 24.04 LTS (Noble Numbat)",
            "noble",
            "24.04.3",
            splice1(
                "https://cdimage.ubuntu.com/ubuntu-base/releases/24.04/release/ubuntu-base-24.04.3-base-",
                tok,
                ".tar.gz",
            ),
            FamilyKind::DebianFamily,
        ),
    );
    v.push(
        make_distro(
            "Ubuntu 26.04 LTS (Resolute Raccoon)",
            "resolute",
            "26.04",
            splice1(
                "https://cdimage.ubuntu.com/ubuntu-base/releases/26.04/snapshot1/ubuntu-base-26.04-base-",
                tok,
                ".tar.gz",
            ),
            FamilyKind::DebianFamily,
        ),
    );
    let r = DistroFamily {
        name: String::from_str("Ubuntu"),
        description: String::from_str("Popular, user-friendly, Debian-based."),
        variants: v,
    };
    proof {
        assert(r@ =~~= spec_family(arch@));
    }
    r
}

} // verus!

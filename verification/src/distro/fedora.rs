//! The Fedora catalog.

use vstd::prelude::*;
use vstd::string::*;
use crate::distro::Distro;
use crate::distro::DistroFamily;
use crate::distro::DistroFamilyView;
use crate::distro::FamilyKind;
use crate::distro::arch_token;
use crate::distro::make_distro;
use crate::distro::spec_arch_token;
use crate::distro::spec_distro;
use crate::distro::spec_splice1;
use crate::distro::spec_splice2;
use crate::distro::splice1;
use crate::distro::splice2;

verus! {

/// The Fedora family for a host architecture, as a ghost value.
pub open spec fn spec_family(arch: Seq<char>) -> DistroFamilyView {
    let tok = spec_arch_token(arch, "aarch64"@, "x86_64"@, "armhfp"@);
    DistroFamilyView {
        name: "Fedora"@,
        description: "Cutting-edge, community-driven Red Hat distro."@,
        variants: seq![
            spec_distro(
                "Fedora 40"@,
                "40"@,
                "40-1.14"@,
                spec_splice2(
                    "https://archives.fedoraproject.org/pub/archive/fedora/linux/releases/40/Container/"@,
                    tok,
                    "/images/Fedora-Container-Base-Generic."@,
                    "-40-1.14.oci.tar.xz"@,
                ),
                FamilyKind::Fedora,
            ),
            spec_distro(
                "Fedora 41"@,
                "41"@,
                "41-1.4"@,
                spec_splice2(
                    "https://mirror.twds.com.tw/fedora/fedora/linux/releases/41/Container/"@,
                    tok,
                    "/images/Fedora-Container-Base-Generic-41-1.4."@,
                    ".oci.tar.xz"@,
                ),
                FamilyKind::Fedora,
            ),
            spec_distro(
                "Fedora 42 (Adams)"@,
                "adams"@,
                "42-1.1"@,
                spec_splice2(
                    "https://mirror.twds.com.tw/fedora/fedora/linux/releases/42/Container/"@,
                    tok,
                    "/images/Fedora-Container-Base-Generic-42-1.1."@,
                    ".oci.tar.xz"@,
                ),
                FamilyKind::Fedora,
            ),
            spec_distro(
                "Fedora 43"@,
                "43"@,
                "43-1.6"@,
                spec_splice2(
                    "https://mirror.twds.com.tw/fedora/fedora/linux/releases/43/Container/"@,
                    tok,
                    "/images/Fedora-Container-Base-Generic-43-1.6."@,
                    ".oci.tar.xz"@,
                ),
                FamilyKind::Fedora,
            ),
        ],
    }
}

/// The Fedora family catalog for a host architecture.
pub fn get_family(arch: &str) -> (r: DistroFamily)
    ensures
        r@ == spec_family(arch@),
{
    let tok = arch_token(arch, "aarch64", "x86_64", "armhfp");
    let mut v: Vec<Distro> = Vec::new();
    v.push(
        make_distro(
            "Fedora 40",
            "40",
            "40-1.14",
            splice2(
                "https://archives.fedoraproject.org/pub/archive/fedora/linux/releases/40/Container/",
                tok,
                "/images/Fedora-Container-Base-Generic.",
                "-40-1.14.oci.tar.xz",
            ),
            FamilyKind::Fedora,
        ),
    );
    v.push(
        make_distro(
            "Fedora 41",
            "41",
            "41-1.4",
            splice2(
                "https://mirror.twds.com.tw/fedora/fedora/linux/releases/41/Container/",
                tok,
                "/images/Fedora-Container-Base-Generic-41-1.4.",
                ".oci.tar.xz",
            ),
            FamilyKind::Fedora,
        ),
    );
    v.push(
        make_distro(
            "Fedora 42 (Adams)",
            "adams",
            "42-1.1",
            splice2(
                "https://mirror.twds.com.tw/fedora/fedora/linux/releases/42/Container/",
                tok,
                "/images/Fedora-Container-Base-Generic-42-1.1.",
                ".oci.tar.xz",
            ),
            FamilyKind::Fedora,
        ),
    );
    v.push(
        make_distro(
            "Fedora 43",
            "43",
            "43-1.6",
            splice2(
                "https://mirror.twds.com.tw/fedora/fedora/linux/releases/43/Container/",
                tok,
                "/images/Fedora-Container-Base-Generic-43-1.6.",
                ".oci.tar.xz",
            ),
            FamilyKind::Fedora,
        ),
    );
    let r = DistroFamily {
        name: String::from_str("Fedora"),
        description: String::from_str("Cutting-edge, community-driven Red Hat distro."),
        variants: v,
    };
    proof {
        assert(r@ =~~= spec_family(arch@));
    }
    r
}

} // verus!

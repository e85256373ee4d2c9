//! The Arch Linux catalog.

use vstd::prelude::*;
use vstd::string::*;
use crate::distro::Distro;
use crate::distro::DistroFamily;
use crate::distro::DistroFamilyView;
use crate::distro::FamilyKind;
use crate::distro::arch_token;
use crate::distro::make_distro;
use crate::distro::spec_arch_token;
use crate::distro::spec_distro;
use crate::distro::spec_splice1;
use crate::distro::spec_splice2;
use crate::distro::splice1;
use crate::distro::splice2;

verus! {

/// The Arch Linux family for a host architecture, as a ghost value;
/// only aarch64 hosts have an installable variant.
pub open spec fn spec_family(arch: Seq<char>) -> DistroFamilyView {
    if arch == "aarch64"@ {
        DistroFamilyView {
            name: "Arch Linux"@,
            description: "Rolling release, lightweight, pacman package manager."@,
            variants: seq![
                spec_distro(
                    "Arch Linux ARM (Generic)"@,
                    "rolling"@,
                    "latest"@,
                    "http://os.archlinuxarm.org/os/ArchLinuxARM-aarch64-latest.tar.gz"@,
                    FamilyKind::Arch,
                ),
            ],
        }
    } else {
        DistroFamilyView {
            name: "Arch Linux"@,
            description: "AArch64 Only for now"@,
            variants: Seq::empty(),
        }
    }
}

/// The Arch Linux family catalog for a host architecture.
pub fn get_family(arch: &str) -> (r: DistroFamily)
    ensures
        r@ == spec_family(arch@),
{
    if crate::text::str_eq(arch, "aarch64") {
        let mut v: Vec<Distro> = Vec::new();
        v.push(
            make_distro(
                "Arch Linux ARM (Generic)",
                "rolling",
                "latest",
                String::from_str("http://os.archlinuxarm.org/os/ArchLinuxARM-aarch64-latest.tar.gz"),
                FamilyKind::Arch,
            ),
        );
        let r = DistroFamily {
            name: String::from_str("Arch Linux"),
            description: String::from_str("Rolling release, lightweight, pacman package manager."),
            variants: v,
        };
        proof {
            assert(r@ =~~= spec_family(arch@));
        }
        r
    } else {
        let r = DistroFamily {
            name: String::from_str("Arch Linux"),
            description: String::from_str("AArch64 Only for now"),
            variants: Vec::new(),
        };
        proof {
            assert(r@ =~~= spec_family(arch@));
        }
        r
    }
}

} // verus!

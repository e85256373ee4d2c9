//! The Debian catalog.

use vstd::prelude::*;
use vstd::string::*;
use crate::distro::Distro;
use crate::distro::DistroFamily;
use crate::distro::DistroFamilyView;
use crate::distro::FamilyKind;
use crate::distro::arch_token;
use crate::distro::make_distro;
use crate::distro::spec_arch_token;
use crate::distro::spec_distro;
use crate::distro::spec_splice1;
use crate::distro::spec_splice2;
use crate::distro::splice1;
use crate::distro::splice2;

verus! {

/// The Debian family for a host architecture, as a ghost value; only
/// aarch64 hosts have installable variants.
pub open spec fn spec_family(arch: Seq<char>) -> DistroFamilyView {
    if arch == "aarch64"@ {
        DistroFamilyView {
            name: "Debian"@,
            description: "Stable, reliable, widely-used server distro."@,
            variants: seq![
                spec_distro(
                    "Debian 11 (Bullseye)"@,
                    "bullseye"@,
                    "11"@,
                    "https://github.com/HanSoBored/Debootstrap-Linux/releases/download/debian/debian-bullseye-aarch64.tar.gz"@,
                    FamilyKind::DebianFamily,
                ),
                spec_distro(
                    "Debian 12 (Bookworm)"@,
                    "bookworm"@,
                    "12"@,
                    "https://github.com/HanSoBored/Debootstrap-Linux/releases/download/debian/debian-bookworm-aarch64.tar.gz"@,
                    FamilyKind::DebianFamily,
                ),
                spec_distro(
                    "Debian 13 (Trixie)"@,
                    "trixie"@,
                    "13"@,
                    "https://github.com/HanSoBored/Debootstrap-Linux/releases/download/debian/debian-trixie-aarch64.tar.gz"@,
                    FamilyKind::DebianFamily,
                ),
            ],
        }
    } else {
        DistroFamilyView {
            name: "Debian"@,
            description: "AArch64 Only for now"@,
            variants: Seq::empty(),
        }
    }
}

/// The Debian family catalog for a host architecture.
pub fn get_family(arch: &str) -> (r: DistroFamily)
    ensures
        r@ == spec_family(arch@),
{
    if crate::text::str_eq(arch, "aarch64") {
        let mut v: Vec<Distro> = Vec::new();
        v.push(
            make_distro(
                "Debian 11 (Bullseye)",
                "bullseye",
                "11",
                String::from_str("https://github.com/HanSoBored/Debootstrap-Linux/releases/download/debian/debian-bullseye-aarch64.tar.gz"),
                FamilyKind::DebianFamily,
            ),
        );
        v.push(
            make_distro(
                "Debian 12 (Bookworm)",
                "bookworm",
                "12",
                String::from_str("https://github.com/HanSoBored/Debootstrap-Linux/releases/download/debian/debian-bookworm-aarch64.tar.gz"),
                FamilyKind::DebianFamily,
            ),
        );
        v.push(
            make_distro(
                "Debian 13 (Trixie)",
                "trixie",
                "13",
                String::from_str("https://github.com/HanSoBored/Debootstrap-Linux/releases/download/debian/debian-trixie-aarch64.tar.gz"),
                FamilyKind::DebianFamily,
            ),
        );
        let r = DistroFamily {
            name: String::from_str("Debian"),
            description: String::from_str("Stable, reliable, widely-used server distro."),
            variants: v,
        };
        proof {
            assert(r@ =~~= spec_family(arch@));
        }
        r
    } else {
        let r = DistroFamily {
            name: String::from_str("Debian"),
            description: String::from_str("AArch64 Only for now"),
            variants: Vec::new(),
        };
        proof {
            assert(r@ =~~= spec_family(arch@));
        }
        r
    }
}

} // verus!

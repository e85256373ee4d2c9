//! The Void Linux catalog.

use vstd::prelude::*;
use vstd::string::*;
use crate::distro::Distro;
use crate::distro::DistroFamily;
use crate::distro::DistroFamilyView;
use crate::distro::FamilyKind;
use crate::distro::arch_token;
use crate::distro::make_distro;
use crate::distro::spec_arch_token;
use crate::distro::spec_distro;
use crate::distro::spec_splice1;
use crate::distro::spec_splice2;
use crate::distro::splice1;
use crate::distro::splice2;

verus! {

/// The Void family for a host architecture, as a ghost value.
pub open spec fn spec_family(arch: Seq<char>) -> DistroFamilyView {
    let tok = spec_arch_token(arch, "aarch64"@, "x86_64-musl"@, "armv7l-musl"@);
    DistroFamilyView {
        name: "Void Linux"@,
        description: "Modern Linux distro with rolling releases and XBPS."@,
        variants: seq![
            spec_distro(
                "Void Linux"@,
                "rolling"@,
                "20240314"@,
                spec_splice1(
                    "https://repo-default.voidlinux.org/live/20240314/void-"@,
                    tok,
                    "-ROOTFS-20240314.tar.xz"@,
                ),
                FamilyKind::Void,
            ),
            spec_distro(
                "Void Linux"@,
                "rolling"@,
                "20250202"@,
                spec_splice1(
                    "https://repo-default.voidlinux.org/live/20250202/void-"@,
                    tok,
                    "-ROOTFS-20250202.tar.xz"@,
                ),
                FamilyKind::Void,
            ),
        ],
    }
}

/// The Void family catalog for a host architecture.
pub fn get_family(arch: &str) -> (r: DistroFamily)
    ensures
        r@ == spec_family(arch@),
{
    let tok = arch_token(arch, "aarch64", "x86_64-musl", "armv7l-musl");
    let mut v: Vec<Distro> = Vec::new();
    v.push(
        make_distro(
            "Void Linux",
            "rolling",
            "20240314",
            splice1(
                "https://repo-default.voidlinux.org/live/20240314/void-",
                tok,
                "-ROOTFS-20240314.tar.xz",
            ),
            FamilyKind::Void,
        ),
    );
    v.push(
        make_distro(
            "Void Linux",
            "rolling",
            "20250202",
            splice1(
                "https://repo-default.voidlinux.org/live/20250202/void-",
                tok,
                "-ROOTFS-20250202.tar.xz",
            ),
            FamilyKind::Void,
        ),
    );
    let r = DistroFamily {
        name: String::from_str("Void Linux"),
        description: String::from_str("Modern Linux distro with rolling releases and XBPS."),
        variants: v,
    };
    proof {
        assert(r@ =~~= spec_family(arch@));
    }
    r
}

} // verus!

//! The Alpine Linux catalog.

use vstd::prelude::*;
use vstd::string::*;
use crate::distro::DistroFamily;
use crate::distro::DistroFamilyView;
use crate::distro::FamilyKind;
use crate::distro::arch_token;
use crate::distro::make_distro;
use crate::distro::spec_arch_token;
use crate::distro::spec_distro;
use crate::distro::spec_splice2;
use crate::distro::splice2;

verus! {

/// The Alpine family for a host architecture, as a ghost value.
pub open spec fn spec_family(arch: Seq<char>) -> DistroFamilyView {
    let tok = spec_arch_token(arch, "aarch64"@, "x86_64"@, "armv7"@);
    DistroFamilyView {
        name: "Alpine Linux"@,
        description: "Security-oriented, lightweight (musl libc & busybox)."@,
        variants: seq![
            spec_distro(
                "Alpine 3.20"@,
                "release"@,
                "3.20.8"@,
                spec_splice2(
                    "https://dl-cdn.alpinelinux.org/alpine/v3.20/releases/"@,
                    tok,
                    "/alpine-minirootfs-3.20.8-"@,
                    ".tar.gz"@,
                ),
                FamilyKind::Alpine,
            ),
            spec_distro(
                "Alpine 3.21"@,
                "release"@,
                "3.21.5"@,
                spec_splice2(
                    "https://dl-cdn.alpinelinux.org/alpine/v3.21/releases/"@,
                    tok,
                    "/alpine-minirootfs-3.21.5-"@,
                    ".tar.gz"@,
                ),
                FamilyKind::Alpine,
            ),
            spec_distro(
                "Alpine 3.22"@,
                "release"@,
                "3.22.2"@,
                spec_splice2(
                    "https://dl-cdn.alpinelinux.org/alpine/v3.22/releases/"@,
                    tok,
                    "/alpine-minirootfs-3.22.2-"@,
                    ".tar.gz"@,
                ),
                FamilyKind::Alpine,
            ),
            spec_distro(
                "Alpine 3.23"@,
                "release"@,
                "3.23.0"@,
                spec_splice2(
                    "https://dl-cdn.alpinelinux.org/alpine/v3.23/releases/"@,
                    tok,
                    "/alpine-minirootfs-3.23.0-"@,
                    ".tar.gz"@,
                ),
                FamilyKind::Alpine,
            ),
            spec_distro(
                "Alpine Edge"@,
                "edge"@,
                "rolling"@,
                spec_splice2(
                    "https://dl-cdn.alpinelinux.org/alpine/edge/releases/"@,
                    tok,
                    "/alpine-minirootfs-20251016-"@,
                    ".tar.gz"@,
                ),
                FamilyKind::Alpine,
            ),
        ],
    }
}

/// The Alpine family catalog for a host architecture.
pub fn get_family(arch: &str) -> (r: DistroFamily)
    ensures
        r@ == spec_family(arch@),
{
    let tok = arch_token(arch, "aarch64", "x86_64", "armv7");
    let mut v: Vec<crate::distro::Distro> = Vec::new();
    v.push(
        make_distro(
            "Alpine 3.20",
            "release",
            "3.20.8",
            splice2(
                "https://dl-cdn.alpinelinux.org/alpine/v3.20/releases/",
                tok,
                "/alpine-minirootfs-3.20.8-",
                ".tar.gz",
            ),
            FamilyKind::Alpine,
        ),
    );
    v.push(
        make_distro(
            "Alpine 3.21",
            "release",
            "3.21.5",
            splice2(
                "https://dl-cdn.alpinelinux.org/alpine/v3.21/releases/",
                tok,
                "/alpine-minirootfs-3.21.5-",
                ".tar.gz",
            ),
            FamilyKind::Alpine,
        ),
    );
    v.push(
        make_distro(
            "Alpine 3.22",
            "release",
            "3.22.2",
            splice2(
                "https://dl-cdn.alpinelinux.org/alpine/v3.22/releases/",
                tok,
                "/alpine-minirootfs-3.22.2-",
                ".tar.gz",
            ),
            FamilyKind::Alpine,
        ),
    );
    v.push(
        make_distro(
            "Alpine 3.23",
            "release",
            "3.23.0",
            splice2(
                "https://dl-cdn.alpinelinux.org/alpine/v3.23/releases/",
                tok,
                "/alpine-minirootfs-3.23.0-",
                ".tar.gz",
            ),
            FamilyKind::Alpine,
        ),
    );
    v.push(
        make_distro(
            "Alpine Edge",
            "edge",
            "rolling",
            splice2(
                "https://dl-cdn.alpinelinux.org/alpine/edge/releases/",
                tok,
                "/alpine-minirootfs-20251016-",
                ".tar.gz",
            ),
            FamilyKind::Alpine,
        ),
    );
    let r = DistroFamily {
        name: String::from_str("Alpine Linux"),
        description: String::from_str("Security-oriented, lightweight (musl libc & busybox)."),
        variants: v,
    };
    proof {
        assert(r@ =~~= spec_family(arch@));
    }
    r
}

} // verus!

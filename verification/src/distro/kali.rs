//! The Kali Linux catalog.

use vstd::prelude::*;
use vstd::string::*;
use crate::distro::Distro;
use crate::distro::DistroFamily;
use crate::distro::DistroFamilyView;
use crate::distro::FamilyKind;
use crate::distro::arch_token;
use crate::distro::make_distro;
use crate::distro::spec_arch_token;
use crate::distro::spec_distro;
use crate::distro::spec_splice1;
use crate::distro::spec_splice2;
use crate::distro::splice1;
use crate::distro::splice2;

verus! {

/// The Kali family for a host architecture, as a ghost value.
pub open spec fn spec_family(arch: Seq<char>) -> DistroFamilyView {
    let tok = spec_arch_token(arch, "arm64"@, "amd64"@, "armhf"@);
    DistroFamilyView {
        name: "Kali Linux"@,
        description: "Security-focused distro for penetration testing."@,
        variants: seq![
            spec_distro(
                "Kali Linux 2025.1"@,
                "kali-rolling"@,
                "2025.1c"@,
                spec_splice1(
                    "https://kali.download/nethunter-images/kali-2025.1c/rootfs/kali-nethunter-rootfs-nano-"@,
                    tok,
                    ".tar.xz"@,
                ),
                FamilyKind::DebianFamily,
            ),
            spec_distro(
                "Kali Linux 2025.2"@,
                "kali-rolling"@,
                "2025.2"@,
                spec_splice1(
                    "https://kali.download/nethunter-images/kali-2025.2/rootfs/kali-nethunter-rootfs-nano-"@,
                    tok,
                    ".tar.xz"@,
                ),
                FamilyKind::DebianFamily,
            ),
            spec_distro(
                "Kali Linux 2025.3"@,
                "kali-rolling"@,
                "2025.2"@,
                spec_splice1(
                    "https://kali.download/nethunter-images/kali-2025.3/rootfs/kali-nethunter-rootfs-nano-"@,
                    tok,
                    ".tar.xz"@,
                ),
                FamilyKind::DebianFamily,
            ),
            spec_distro(
                "Kali Linux (Current)"@,
                "kali-rolling"@,
                "latest"@,
                spec_splice1(
                    "https://kali.download/nethunter-images/current/rootfs/kali-nethunter-rootfs-nano-"@,
                    tok,
                    ".tar.xz"@,
                ),
                FamilyKind::DebianFamily,
            ),
        ],
    }
}

/// The Kali family catalog for a host architecture.
pub fn get_family(arch: &str) -> (r: DistroFamily)
    ensures
        r@ == spec_family(arch@),
{
    let tok = arch_token(arch, "arm64", "amd64", "armhf");
    let mut v: Vec<Distro> = Vec::new();
    v.push(
        make_distro(
            "Kali Linux 2025.1",
            "kali-rolling",
            "2025.1c",
            splice1(
                "https://kali.download/nethunter-images/kali-2025.1c/rootfs/kali-nethunter-rootfs-nano-",
                tok,
                ".tar.xz",
            ),
            FamilyKind::DebianFamily,
        ),
    );
    v.push(
        make_distro(
            "Kali Linux 2025.2",
            "kali-rolling",
            "2025.2",
            splice1(
                "https://kali.download/nethunter-images/kali-2025.2/rootfs/kali-nethunter-rootfs-nano-",
                tok,
                ".tar.xz",
            ),
            FamilyKind::DebianFamily,
        ),
    );
    v.push(
        make_distro(
            "Kali Linux 2025.3",
            "kali-rolling",
            "2025.2",
            splice1(
                "https://kali.download/nethunter-images/kali-2025.3/rootfs/kali-nethunter-rootfs-nano-",
                tok,
                ".tar.xz",
            ),
            FamilyKind::DebianFamily,
        ),
    );
    v.push(
        make_distro(
            "Kali Linux (Current)",
            "kali-rolling",
            "latest",
            splice1(
                "https://kali.download/nethunter-images/current/rootfs/kali-nethunter-rootfs-nano-",
                tok,
                ".tar.xz",
            ),
            FamilyKind::DebianFamily,
        ),
    );
    let r = DistroFamily {
        name: String::from_str("Kali Linux"),
        description: String::from_str("Security-focused distro for penetration testing."),
        variants: v,
    };
    proof {
        assert(r@ =~~= spec_family(arch@));
    }
    r
}

} // verus!

use autolinux::distro::Distro;
use autolinux::distro::FamilyKind;
use autolinux::target::InstallTarget;

fn alpine_322() -> Distro {
    Distro {
        name: "Alpine 3.22".to_string(),
        codename: "release".to_string(),
        version: "3.22.2".to_string(),
        url: "https://dl-cdn.alpinelinux.org/alpine/v3.22/releases/aarch64/alpine-minirootfs-3.22.2-aarch64.tar.gz".to_string(),
        family: FamilyKind::Alpine,
    }
}

#[test]
fn alpine_target_identity() {
    let t = InstallTarget::from_distro(&alpine_322());
    assert_eq!(t.identity, "alpine-release-3.22.2");
    assert_eq!(t.install_path, "/data/local/alpine-release-3.22.2");
    assert_eq!(t.start_script_path, "/data/local/start-alpine-release-3.22.2.sh");
    assert_eq!(t.archive_path, "/data/local/alpine-release-3.22.2/rootfs.tar.gz");
}

#[test]
fn family_token_is_first_word_lowercased() {
    let d = Distro {
        name: "Ubuntu 24.04 LTS (Noble Numbat)".to_string(),
        codename: "noble".to_string(),
        version: "24.04.3".to_string(),
        url: "https://example.invalid/u.tar.gz".to_string(),
        family: FamilyKind::DebianFamily,
    };
    let t = InstallTarget::from_distro(&d);
    assert_eq!(t.identity, "ubuntu-noble-24.04.3");
}

#[test]
fn xz_url_suffix_names_xz_archive() {
    let d = Distro {
        name: "Void Linux".to_string(),
        codename: "rolling".to_string(),
        version: "20250202".to_string(),
        url: "https://repo-default.voidlinux.org/live/20250202/void-aarch64-ROOTFS-20250202.tar.xz"
            .to_string(),
        family: FamilyKind::Void,
    };
    let t = InstallTarget::from_distro(&d);
    assert_eq!(t.archive_path, "/data/local/void-rolling-20250202/rootfs.tar.xz");
}

#[test]
fn identical_records_derive_identical_identity() {
    let a = InstallTarget::from_distro(&alpine_322());
    let b = InstallTarget::from_distro(&alpine_322());
    assert_eq!(a.identity, b.identity);
    assert_eq!(a.install_path, b.install_path);
    assert_eq!(a.start_script_path, b.start_script_path);
}

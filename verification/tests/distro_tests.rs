use autolinux::distro::Distro;
use autolinux::distro::FamilyKind;

#[test]
fn the_catalog_has_seven_families_in_order() {
    let families = Distro::get_all_families("aarch64");
    let names: Vec<&str> = families.iter().map(|f| f.name.as_str()).collect();
    assert_eq!(
        names,
        vec![
            "Ubuntu",
            "Debian",
            "Alpine Linux",
            "Arch Linux",
            "Kali Linux",
            "Void Linux",
            "Fedora",
        ]
    );
}

#[test]
fn alpine_urls_carry_the_architecture_token() {
    let families = Distro::get_all_families("aarch64");
    let alpine = &families[2];
    assert_eq!(alpine.variants.len(), 5);
    assert_eq!(
        alpine.variants[2].url,
        "https://dl-cdn.alpinelinux.org/alpine/v3.22/releases/aarch64/alpine-minirootfs-3.22.2-aarch64.tar.gz"
    );
    assert_eq!(alpine.variants[2].family, FamilyKind::Alpine);
    assert_eq!(alpine.variants[2].codename, "release");
    assert_eq!(alpine.variants[2].version, "3.22.2");
}

#[test]
fn unknown_architectures_use_the_fallback_token() {
    let families = Distro::get_all_families("riscv64");
    let alpine = &families[2];
    assert!(alpine.variants[0].url.contains("armv7"));
    let kali = &families[4];
    assert!(kali.variants[0].url.contains("armhf"));
}

#[test]
fn debian_and_arch_require_aarch64() {
    let families = Distro::get_all_families("x86_64");
    assert!(families[1].variants.is_empty());
    assert_eq!(families[1].description, "AArch64 Only for now");
    assert!(families[3].variants.is_empty());
    let families = Distro::get_all_families("aarch64");
    assert_eq!(families[1].variants.len(), 3);
    assert_eq!(families[3].variants.len(), 1);
    assert_eq!(
        families[3].variants[0].url,
        "http://os.archlinuxarm.org/os/ArchLinuxARM-aarch64-latest.tar.gz"
    );
}

#[test]
fn fedora_images_are_oci_archives() {
    let families = Distro::get_all_families("aarch64");
    let fedora = &families[6];
    assert_eq!(fedora.variants.len(), 4);
    assert!(fedora.variants[0].url.ends_with(".oci.tar.xz"));
    assert_eq!(
        fedora.variants[0].url,
        "https://archives.fedoraproject.org/pub/archive/fedora/linux/releases/40/Container/aarch64/images/Fedora-Container-Base-Generic.aarch64-40-1.14.oci.tar.xz"
    );
    assert_eq!(fedora.variants[0].family, FamilyKind::Fedora);
}

#[test]
fn ubuntu_flavors_of_the_flat_catalog() {
    let flavors = Distro::get_ubuntu_flavors("aarch64");
    assert_eq!(flavors.len(), 4);
    assert_eq!(flavors[0].codename, "focal");
    assert_eq!(
        flavors[0].url,
        "https://cdimage.ubuntu.com/ubuntu-base/releases/20.04/release/ubuntu-base-20.04.5-base-arm64.tar.gz"
    );
    assert_eq!(
        flavors[3].url,
        "https://cdimage.ubuntu.com/ubuntu-base/releases/resolute/snapshot1/ubuntu-base-26.04-base-arm64.tar.gz"
    );
}

#[test]
fn passwd_users_include_root_and_regular_accounts() {
    let content = "root:x:0:0:root:/root:/bin/bash\n\
                   daemon:x:1:1:daemon:/usr/sbin:/usr/sbin/nologin\n\
                   han:x:1000:1000::/home/han:/bin/bash\n\
                   svc:x:999:999::/:/bin/false\n\
                   guest:x:59999:100::/home/guest:/bin/sh\n\
                   outofrange:x:60000:100::/:/bin/sh\n\
                   broken line without fields\n\
                   tabby:x:1001:1001::/home/tabby:/bin/zsh";
    let users = Distro::get_users_from_passwd(content);
    assert_eq!(users, vec!["root", "han", "guest", "tabby"]);
}

#[test]
fn unparseable_uid_lines_are_skipped() {
    let content = "odd:x:notanumber:0::/:/bin/sh\nok:x:2000:2000::/:/bin/sh\n";
    let users = Distro::get_users_from_passwd(content);
    assert_eq!(users, vec!["root", "ok"]);
}

use autolinux::config::hosts_content;
use autolinux::config::resolv_conf_content;
use autolinux::distro::FamilyKind;
use autolinux::script::finalize_script_rel_path;
use autolinux::script::package_block;
use autolinux::script::setup_script_content;
use autolinux::script::shell_command;
use autolinux::script::start_script_content;

#[test]
fn shells_by_family() {
    assert_eq!(shell_command(FamilyKind::Alpine), "/bin/sh");
    assert_eq!(shell_command(FamilyKind::Arch), "/bin/bash");
    assert_eq!(shell_command(FamilyKind::Void), "/bin/bash");
    assert_eq!(shell_command(FamilyKind::Fedora), "/bin/bash");
    assert_eq!(shell_command(FamilyKind::DebianFamily), "/bin/bash");
}

#[test]
fn start_script_interpolates_path_shell_and_binary() {
    let s = start_script_content(
        "/data/local/fedora-adams-42-1.1",
        "/data/local/tmp/autolinux",
        FamilyKind::Fedora,
    );
    assert!(s.starts_with("#!/bin/sh\nDISTROPATH=\"/data/local/fedora-adams-42-1.1\"\n"));
    assert!(s.contains("busybox chroot \"$DISTROPATH\" /bin/bash /root/finalize_setup.sh"));
    assert!(s.contains("/system/bin/chroot \"$DISTROPATH\" /bin/bash /root/finalize_setup.sh"));
    assert!(s.contains("\"/data/local/tmp/autolinux\" clean-xattr \"$DISTROPATH\""));
    assert!(s.contains("#%PAM-1.0"));
    assert!(s.contains("mnt -t tmpfs -o size=256M tmpfs \"$DISTROPATH/dev/shm\""));
    assert!(s.ends_with("fi\n"));
}

#[test]
fn package_blocks_are_family_specific() {
    assert!(package_block(FamilyKind::Alpine).contains("apk add bash shadow sudo nano net-tools git"));
    assert!(package_block(FamilyKind::Arch).contains("pacman-key --populate archlinuxarm"));
    assert!(package_block(FamilyKind::Void).contains("xbps-install -y -S sudo nano net-tools git bash shadow ca-certificates"));
    assert!(package_block(FamilyKind::Fedora).contains("dnf install -y nano net-tools sudo git passwd shadow-utils util-linux attr findutils"));
    assert!(package_block(FamilyKind::DebianFamily).contains("apt install -y nano net-tools sudo git"));
}

#[test]
fn setup_script_wires_groups_and_user() {
    let s = setup_script_content(FamilyKind::DebianFamily, "han", "hunter2");
    assert!(s.starts_with("#!/bin/sh\n"));
    assert!(s.contains("groupadd -g 3003 aid_inet"));
    assert!(s.contains("groupadd -g 3004 aid_net_raw"));
    assert!(s.contains("groupadd -g 1003 aid_graphics"));
    assert!(s.contains("usermod -g 3003 -G 3003,3004 -a _apt 2>/dev/null || true"));
    assert!(s.contains("echo '%wheel ALL=(ALL:ALL) ALL' >> /etc/sudoers"));
    assert!(s.contains("useradd -m -g users -G wheel,audio,video,storage,aid_inet -s /bin/bash han"));
    assert!(s.contains("echo \"han:hunter2\" | chpasswd"));
    assert!(s.contains("apt update -y"));
}

#[test]
fn alpine_setup_script_bootstrap() {
    let s = setup_script_content(FamilyKind::Alpine, "user", "pw");
    assert!(s.contains("apk add bash shadow sudo nano net-tools git"));
    assert!(s.contains("echo \"http://dl-cdn.alpinelinux.org/alpine/edge/main\" > /etc/apk/repositories"));
}

#[test]
fn sentinel_path_inside_the_tree() {
    assert_eq!(finalize_script_rel_path(), "root/finalize_setup.sh");
}

#[test]
fn resolver_files() {
    assert_eq!(resolv_conf_content(), "nameserver 8.8.8.8\nnameserver 8.8.4.4\n");
    assert_eq!(
        hosts_content(None),
        "127.0.0.1 localhost\n::1 localhost ip6-localhost ip6-loopback\n"
    );
    assert_eq!(
        hosts_content(Some(("1.2.3.4".to_string(), "repo-default.voidlinux.org".to_string()))),
        "127.0.0.1 localhost\n::1 localhost ip6-localhost ip6-loopback\n1.2.3.4 repo-default.voidlinux.org\n"
    );
}

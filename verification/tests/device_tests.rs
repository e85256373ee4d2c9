use autolinux::device::root_type_of_lowered;
use autolinux::device::DeviceInfo;

#[test]
fn uid_zero_means_root() {
    let d = DeviceInfo::new(
        "aarch64".to_string(),
        Some("0\n".to_string()),
        None,
        false,
        Some("14\n".to_string()),
    );
    assert!(d.is_root);
    assert_eq!(d.arch, "aarch64");
    assert_eq!(d.android_ver, "14");
}

#[test]
fn nonzero_uid_is_not_root() {
    let d = DeviceInfo::new("aarch64".to_string(), Some("2000\n".to_string()), None, false, None);
    assert!(!d.is_root);
    assert_eq!(d.android_ver, "Unknown");
}

#[test]
fn su_banner_classification() {
    let d = DeviceInfo::new(
        "aarch64".to_string(),
        None,
        Some("27.0:MAGISK\n".to_string()),
        false,
        None,
    );
    assert!(d.can_su);
    assert_eq!(d.root_type, "Magisk");

    let d = DeviceInfo::new(
        "aarch64".to_string(),
        None,
        Some("KernelSU v0.9\n".to_string()),
        false,
        None,
    );
    assert_eq!(d.root_type, "KernelSU");

    let d = DeviceInfo::new(
        "aarch64".to_string(),
        None,
        Some("APatch 10568".to_string()),
        false,
        None,
    );
    assert_eq!(d.root_type, "APatch");

    let d = DeviceInfo::new(
        "aarch64".to_string(),
        None,
        Some("su from busybox\n".to_string()),
        false,
        None,
    );
    assert_eq!(d.root_type, "Generic (su from busybox)");
}

#[test]
fn hidden_su_and_no_su() {
    let d = DeviceInfo::new("x86_64".to_string(), None, None, true, None);
    assert!(d.can_su);
    assert_eq!(d.root_type, "Hidden/Systemless Root");

    let d = DeviceInfo::new("x86_64".to_string(), None, None, false, None);
    assert!(!d.can_su);
    assert_eq!(d.root_type, "None");
}

#[test]
fn classification_uses_the_lowered_banner() {
    assert_eq!(root_type_of_lowered("27.0:MAGISK", "27.0:magisk"), "Magisk");
    assert_eq!(root_type_of_lowered("plain", "plain"), "Generic (plain)");
}

use autolinux::normalize::detect_oci_layout;
use autolinux::normalize::flatten_wrapper;
use autolinux::normalize::is_excluded_dir;
use autolinux::normalize::join_path;
use autolinux::normalize::select_largest_blob;
use autolinux::normalize::strip_plan;
use autolinux::normalize::FsEntry;

fn file(name: &str, size: u64) -> FsEntry {
    FsEntry { name: name.to_string(), is_dir: false, size }
}

fn dir(name: &str) -> FsEntry {
    FsEntry { name: name.to_string(), is_dir: true, size: 0 }
}

#[test]
fn oci_layout_detected_by_marker_or_blobs() {
    assert!(detect_oci_layout(&vec![file("oci-layout", 3), dir("blobs")]));
    assert!(detect_oci_layout(&vec![dir("blobs"), file("index.json", 100)]));
    assert!(!detect_oci_layout(&vec![dir("etc"), dir("usr"), file("init", 100)]));
}

#[test]
fn largest_blob_wins() {
    let blobs = vec![file("aaa", 512), file("bbb", 2_097_152)];
    let i = select_largest_blob(&blobs).unwrap();
    assert_eq!(i, 1);
    assert_eq!(blobs[i].name, "bbb");
}

#[test]
fn blob_tie_selects_a_tie_member() {
    let blobs = vec![file("one", 900), file("two", 900), file("small", 3)];
    let i = select_largest_blob(&blobs).unwrap();
    assert_eq!(blobs[i].size, 900);
    assert!(blobs[i].name == "one" || blobs[i].name == "two");
}

#[test]
fn directories_are_not_blobs() {
    let blobs = vec![dir("huge-subdir"), file("layer", 10)];
    let i = select_largest_blob(&blobs).unwrap();
    assert_eq!(blobs[i].name, "layer");
}

#[test]
fn empty_blob_listing_is_an_image_format_error() {
    let err = select_largest_blob(&vec![]).unwrap_err();
    assert_eq!(err.message(), "No layers found in OCI image.");
    let err = select_largest_blob(&vec![dir("only-dirs")]).unwrap_err();
    assert_eq!(err.message(), "No layers found in OCI image.");
}

#[test]
fn single_directory_root_is_flattened() {
    assert_eq!(flatten_wrapper(&vec![dir("rootfs")]), Some("rootfs".to_string()));
    assert_eq!(flatten_wrapper(&vec![file("rootfs.img", 7)]), None);
    assert_eq!(flatten_wrapper(&vec![dir("a"), dir("b")]), None);
    assert_eq!(flatten_wrapper(&vec![]), None);
}

#[test]
fn strip_plan_skips_protected_dirs_even_when_populated() {
    let entries = vec![
        dir("proc"),
        dir("sys"),
        dir("dev"),
        dir("sdcard"),
        dir("etc"),
        file("init", 10),
        file("proc-notes", 1),
    ];
    let (strip, descend) = strip_plan("/data/local/x", &entries);
    assert_eq!(
        strip,
        vec![
            "/data/local/x/etc".to_string(),
            "/data/local/x/init".to_string(),
            "/data/local/x/proc-notes".to_string(),
        ]
    );
    assert_eq!(descend, vec!["/data/local/x/etc".to_string()]);
}

#[test]
fn a_file_named_proc_is_still_stripped() {
    let entries = vec![file("proc", 4)];
    let (strip, descend) = strip_plan("/t", &entries);
    assert_eq!(strip, vec!["/t/proc".to_string()]);
    assert!(descend.is_empty());
}

#[test]
fn excluded_names() {
    assert!(is_excluded_dir("proc"));
    assert!(is_excluded_dir("sys"));
    assert!(is_excluded_dir("dev"));
    assert!(is_excluded_dir("sdcard"));
    assert!(!is_excluded_dir("etc"));
    assert!(!is_excluded_dir("procx"));
}

#[test]
fn join_path_inserts_separator() {
    assert_eq!(join_path("/data/local", "blobs/sha256"), "/data/local/blobs/sha256");
}

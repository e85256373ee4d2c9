use autolinux::screen::capitalize;
use autolinux::screen::installed_entry_label;
use autolinux::screen::centered_rect_with_size;
use autolinux::screen::dedup_consecutive;
use autolinux::screen::is_version_part;
use autolinux::screen::join_with;
use autolinux::screen::parse_distro_display_name;
use autolinux::screen::popup_dimensions;
use autolinux::screen::Rect;

#[test]
fn display_name_of_a_release_identity() {
    let (name, version) = parse_distro_display_name("alpine-release-3.22.2");
    assert_eq!(name, "Alpine Release");
    assert_eq!(version, "3.22.2");
}

#[test]
fn display_name_dedups_repeated_tokens() {
    let (name, version) = parse_distro_display_name("kali-kali-rolling-2025.1c");
    assert_eq!(name, "Kali");
    assert_eq!(version, "Rolling-2025.1c");
}

#[test]
fn version_keywords_split_the_tail() {
    let (name, version) = parse_distro_display_name("void-rolling-20250202");
    assert_eq!(name, "Void");
    assert_eq!(version, "Rolling-20250202");
}

#[test]
fn leading_token_always_names_the_distro() {
    let (name, version) = parse_distro_display_name("ubuntu-noble-24.04.3");
    assert_eq!(name, "Ubuntu Noble");
    assert_eq!(version, "24.04.3");
}

#[test]
fn token_classification() {
    assert!(is_version_part("rolling"));
    assert!(is_version_part("latest"));
    assert!(is_version_part("edge"));
    assert!(is_version_part("3.22.2"));
    assert!(is_version_part("2025.1c"));
    assert!(!is_version_part("release"));
    assert!(!is_version_part("noble"));
}

#[test]
fn capitalize_first_letter_only() {
    assert_eq!(capitalize("alpine"), "Alpine");
    assert_eq!(capitalize("Alpine"), "Alpine");
    assert_eq!(capitalize("3abc"), "3abc");
    assert_eq!(capitalize(""), "");
}

#[test]
fn dedup_and_join() {
    let parts = vec!["a".to_string(), "a".to_string(), "b".to_string(), "a".to_string()];
    assert_eq!(dedup_consecutive(&parts), vec!["a", "b", "a"]);
    let parts = vec!["x".to_string(), "y".to_string()];
    assert_eq!(join_with(&parts, ", "), "x, y");
    assert_eq!(join_with(&vec!["solo".to_string()], "-"), "solo");
    assert_eq!(join_with(&vec![], "-"), "");
}

#[test]
fn installed_entry_labels() {
    let users = vec!["root".to_string(), "han".to_string(), "guest".to_string()];
    assert_eq!(
        installed_entry_label("alpine-release-3.22.2", &users),
        "Alpine Release (3.22.2) (root & han, guest)"
    );
    let only_root = vec!["root".to_string()];
    assert_eq!(
        installed_entry_label("void-rolling-20250202", &only_root),
        "Void (Rolling-20250202) (root)"
    );
    let no_version = vec!["root".to_string()];
    assert_eq!(installed_entry_label("debian", &no_version), "Debian (root)");
}

#[test]
fn popups_are_centered_and_clamped() {
    let screen = Rect { x: 0, y: 0, width: 100, height: 40 };
    let c = centered_rect_with_size(70, 8, screen);
    assert_eq!(c, Rect { x: 15, y: 16, width: 70, height: 8 });

    let small = Rect { x: 2, y: 3, width: 10, height: 4 };
    let c = centered_rect_with_size(70, 8, small);
    assert_eq!(c, Rect { x: 2, y: 3, width: 10, height: 4 });
}

#[test]
fn popup_dimensions_respect_minima() {
    let (w, h) = popup_dimensions(&vec![10, 30, 5], 12, 0, false);
    assert_eq!(w, 34);
    assert_eq!(h, 5);
    let (w, h) = popup_dimensions(&vec![], 4, 44, true);
    assert_eq!(w, 48);
    assert_eq!(h, 5);
    let (w, h) = popup_dimensions(&vec![8, 8, 8, 8], 2, 0, true);
    assert_eq!(w, 24);
    assert_eq!(h, 8);
}

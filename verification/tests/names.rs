//! Names that must not leave the directory they are extracted to.

use luksbox_gui::kinds::TargetOs;
use luksbox_gui::paths::name_escapes_directory;

#[test]
fn rejects_traversal_and_separator_chars() {
    for os in [TargetOs::Linux, TargetOs::Macos, TargetOs::Windows, TargetOs::Other] {
        for bad in [
            "",
            ".",
            "..",
            "../etc/passwd",
            "foo/bar",
            "foo\\bar",
            "..\\..\\Windows\\System32\\hosts",
            "\\Windows",
            "/etc/shadow",
        ] {
            assert!(
                name_escapes_directory(bad, os),
                "expected {bad:?} to be rejected as path-escaping",
            );
        }
    }
}

#[test]
fn accepts_ordinary_names() {
    for os in [TargetOs::Linux, TargetOs::Macos, TargetOs::Windows, TargetOs::Other] {
        for good in ["README.md", "deadbeef", "file.tar.gz", "spaces in name"] {
            assert!(
                !name_escapes_directory(good, os),
                "expected {good:?} to be accepted as a plain leaf name",
            );
        }
    }
}

#[test]
fn windows_drive_letter_prefix_is_rejected() {
    assert!(name_escapes_directory("C:malicious", TargetOs::Windows));
    assert!(name_escapes_directory("d:foo", TargetOs::Windows));
}

/// A `:` anywhere in the name targets an alternate data stream on Windows.
#[test]
fn windows_ads_colon_is_rejected() {
    assert!(name_escapes_directory("malware.exe:Zone.Identifier", TargetOs::Windows));
    assert!(name_escapes_directory("readme:hidden", TargetOs::Windows));
}

#[test]
fn posix_colon_name_is_allowed() {
    assert!(!name_escapes_directory("time-12:30.log", TargetOs::Linux));
    assert!(!name_escapes_directory("time-12:30.log", TargetOs::Macos));
}

#[test]
fn an_accepted_name_is_a_direct_child() {
    for os in [TargetOs::Linux, TargetOs::Macos] {
        for name in ["README.md", "time-12:30.log", "..."] {
            assert!(!name_escapes_directory(name, os));
            for dir in ["/home/ana", "/home/ana/", "/", "out"] {
                let path = std::path::Path::new(dir).join(name);
                assert_eq!(path.parent(), Some(std::path::Path::new(dir)));
                assert_eq!(path.file_name().and_then(|n| n.to_str()), Some(name));
            }
        }
    }
}

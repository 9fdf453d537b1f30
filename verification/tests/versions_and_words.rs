use basalto::updates::{plugin_version_text, update_from_manifest};
use basalto::versions::{major_version, pending_update, read_manifest_version, shared_versions_compatible};
use basalto::words::{first_word_of, is_behind, trimmed};

fn reference_version(content: &str) -> Option<String> {
    content
        .lines()
        .find(|l| l.starts_with("version"))
        .and_then(|l| l.split('"').nth(1))
        .map(|v| v.to_string())
}

#[test]
fn manifest_version_of_a_package() {
    let manifest = "[package]\nname = \"basalto\"\nversion = \"0.3.1\"\nedition = \"2021\"\n";
    assert_eq!(read_manifest_version(manifest), Some("0.3.1".to_string()));
}

#[test]
fn manifest_version_takes_first_version_line() {
    let manifest = "version_file = \"a\"\nversion = \"2\"\n";
    assert_eq!(read_manifest_version(manifest), Some("a".to_string()));
}

#[test]
fn manifest_without_version() {
    assert_eq!(read_manifest_version("[package]\nname = \"x\"\n"), None);
    assert_eq!(read_manifest_version(""), None);
    assert_eq!(read_manifest_version("version = 3\n"), None);
}

#[test]
fn manifest_version_unclosed_quote_runs_to_line_end() {
    assert_eq!(read_manifest_version("version = \"1.2\r\nx"), Some("1.2".to_string()));
    assert_eq!(read_manifest_version("version = \"1.2\r"), Some("1.2\r".to_string()));
}

#[test]
fn manifest_version_agrees_with_lines_split() {
    let cases = [
        "a\nversion = \"1\"",
        "  version = \"1\"\nversion = \"2\"",
        "\n\nversion=\"\"",
        "x\r\nversion \"q\" \"r\"\r\n",
        "version",
        "\r\nversion = \"é\"\n",
        "v\nve\nversion = \"9.9.9\"\nversion = \"0\"\n",
    ];
    for c in cases {
        assert_eq!(read_manifest_version(c), reference_version(c), "case {:?}", c);
    }
}

#[test]
fn major_versions() {
    assert_eq!(major_version("1.2.3"), "1");
    assert_eq!(major_version("10"), "10");
    assert_eq!(major_version(""), "");
    assert_eq!(major_version(".5"), "");
}

#[test]
fn compatibility_follows_major_part() {
    assert!(shared_versions_compatible("0.1.0", "0.9.7"));
    assert!(!shared_versions_compatible("1.0.0", "0.1.0"));
    assert!(shared_versions_compatible("2", "2.0"));
}

#[test]
fn pending_update_only_for_other_versions() {
    assert_eq!(pending_update(Some("0.2.0".to_string()), "0.1.0"), Some("0.2.0".to_string()));
    assert_eq!(pending_update(Some("0.1.0".to_string()), "0.1.0"), None);
    assert_eq!(pending_update(None, "0.1.0"), None);
}

#[test]
fn shown_plugin_versions() {
    assert_eq!(plugin_version_text(Some("version = \"1.4.0\"\n")), "1.4.0");
    assert_eq!(plugin_version_text(Some("name = \"x\"\n")), "?");
    assert_eq!(plugin_version_text(None), "?");
}

#[test]
fn updates_from_manifests() {
    assert_eq!(update_from_manifest(Some("version = \"0.2.0\""), "0.1.0"), Some("0.2.0".to_string()));
    assert_eq!(update_from_manifest(Some("version = \"0.1.0\""), "0.1.0"), None);
    assert_eq!(update_from_manifest(Some("nothing"), "0.1.0"), None);
    assert_eq!(update_from_manifest(None, "0.1.0"), None);
}

#[test]
fn trimming_matches_std() {
    for s in ["  0\n", "\t12 \r\n", "", "   ", "\u{3000}7\u{2028}", "a b"] {
        assert_eq!(trimmed(s), s.trim());
    }
}

#[test]
fn first_words_match_split_whitespace() {
    for s in ["abc123\tHEAD\n", "   x y", "", " \n ", "\u{a0}sha\u{85}z"] {
        assert_eq!(first_word_of(s), s.split_whitespace().next().map(|w| w.to_string()));
    }
}

#[test]
fn behind_counts() {
    assert!(!is_behind("0\n"));
    assert!(!is_behind("  0 "));
    assert!(is_behind("3\n"));
    assert!(is_behind(""));
    assert!(is_behind("00"));
}

#[test]
fn manifest_version_read_back() {
    for (v, rest) in [("0.1.0", ""), ("", "version = \"x\""), ("2.0.0-beta", "[deps]\n"), ("ü", "\r\n")] {
        let text = format!("version = \"{}\"\n{}", v, rest);
        assert_eq!(read_manifest_version(&text), Some(v.to_string()));
    }
}

#[test]
fn major_part_ignores_the_rest() {
    assert_eq!(major_version("3.anything.at.all"), "3");
    assert!(shared_versions_compatible("3.0.0", "3.99.1-rc"));
}

use flutter_checker::manifest::project_version_from_manifest;
use flutter_checker::platform::Platform;
use flutter_checker::probe::{parse_located_path, parse_sdk_version, sdk_bin_path, sdk_root_path};
use flutter_checker::text::{find_char, line_one, parent_dir, same_text, trim, word_two};

const VERSION_OUTPUT: &str = "Flutter 3.19.0 • channel stable • https://github.com/flutter/flutter.git\nFramework • revision abc123\nEngine • revision def456\nTools • Dart 3.3.0\n";

#[test]
fn version_is_second_word_of_first_line() {
    assert_eq!(parse_sdk_version(VERSION_OUTPUT), Some("3.19.0".to_string()));
}

#[test]
fn version_of_single_line_output() {
    assert_eq!(parse_sdk_version("Flutter 3.19.0 • channel stable ..."), Some("3.19.0".to_string()));
}

#[test]
fn version_absent_for_empty_output() {
    assert_eq!(parse_sdk_version(""), None);
}

#[test]
fn version_absent_for_single_word() {
    assert_eq!(parse_sdk_version("Flutter"), None);
    assert_eq!(parse_sdk_version("Flutter\n3.19.0 stable"), None);
}

#[test]
fn version_split_at_any_whitespace() {
    assert_eq!(parse_sdk_version("Flutter\t3.19.0\nFramework"), Some("3.19.0".to_string()));
    assert_eq!(parse_sdk_version("Flutter  3.19.0 • channel stable"), Some("3.19.0".to_string()));
    assert_eq!(parse_sdk_version("  Flutter 3.19.0"), Some("3.19.0".to_string()));
    assert_eq!(parse_sdk_version("Flutter   \n3.19.0"), None);
}

#[test]
fn version_word_is_trimmed() {
    assert_eq!(parse_sdk_version("Flutter 3.22.1\r\nmore"), Some("3.22.1".to_string()));
}

#[test]
fn located_path_is_first_line_trimmed() {
    assert_eq!(parse_located_path("  /usr/local/bin/flutter \n/opt/flutter\n"), Some("/usr/local/bin/flutter".to_string()));
    assert_eq!(parse_located_path("   \n/opt/flutter"), None);
    assert_eq!(parse_located_path(""), None);
}

#[test]
fn bin_and_root_paths_from_locate_output() {
    let bin = sdk_bin_path(Platform::Linux, "/usr/local/bin/flutter\n");
    assert_eq!(bin, Some("/usr/local/bin".to_string()));
    assert_eq!(sdk_root_path(Platform::Linux, &bin), Some("/usr/local".to_string()));
}

#[test]
fn windows_paths_split_at_backslashes() {
    let bin = sdk_bin_path(Platform::Windows, "C:\\src\\flutter\\bin\\flutter.bat\r\nC:\\src\\flutter\\bin\\flutter\r\n");
    assert_eq!(bin, Some("C:\\src\\flutter\\bin".to_string()));
    assert_eq!(sdk_root_path(Platform::Windows, &bin), Some("C:\\src\\flutter".to_string()));
    assert_eq!(sdk_bin_path(Platform::Linux, "a\\b"), Some("".to_string()));
}

#[test]
fn no_paths_without_locate_output() {
    assert_eq!(sdk_bin_path(Platform::MacOs, "\n"), None);
    assert_eq!(sdk_root_path(Platform::MacOs, &None), None);
}

#[test]
fn parent_dir_edges() {
    assert_eq!(parent_dir("/usr/local/bin/flutter", false), Some("/usr/local/bin"));
    assert_eq!(parent_dir("/usr/local/bin/", false), Some("/usr/local"));
    assert_eq!(parent_dir("a//b", false), Some("a"));
    assert_eq!(parent_dir("/usr", false), Some("/"));
    assert_eq!(parent_dir("flutter", false), Some(""));
    assert_eq!(parent_dir("/", false), None);
    assert_eq!(parent_dir("", false), None);
}

#[test]
fn text_helpers() {
    assert_eq!(trim("\t a b \u{3000}\n"), "a b");
    assert_eq!(trim("   "), "");
    assert_eq!(line_one("one\ntwo"), "one");
    assert_eq!(line_one("no feed"), "no feed");
    assert_eq!(word_two("a b c"), Some("b"));
    assert_eq!(word_two("  a \t  bc  "), Some("bc"));
    assert_eq!(word_two(" ab "), None);
    assert_eq!(find_char("héllo", 'l'), 2);
    assert!(same_text("3.19.0", "3.19.0"));
    assert!(!same_text("3.19.0", "3.19"));
}

#[test]
fn manifest_gives_flutter_version() {
    assert_eq!(project_version_from_manifest("environment:\n  flutter: 3.19.0"), Some("3.19.0".to_string()));
    assert_eq!(
        project_version_from_manifest("name: app\nenvironment:\n  sdk: '>=3.0.0 <4.0.0'\n  flutter: stable\n"),
        Some("stable".to_string())
    );
}

#[test]
fn manifest_without_environment_has_no_version() {
    assert_eq!(project_version_from_manifest("name: app\nversion: 1.0.0\n"), None);
}

#[test]
fn manifest_without_flutter_key_has_no_version() {
    assert_eq!(project_version_from_manifest("environment:\n  sdk: '>=3.0.0'\n"), None);
}

#[test]
fn manifest_that_is_no_yaml_has_no_version() {
    assert_eq!(project_version_from_manifest("environment: [unclosed\n  flutter: 3.19.0"), None);
}

#[test]
fn manifest_with_non_text_version_has_no_version() {
    assert_eq!(project_version_from_manifest("environment:\n  flutter: 3\n"), None);
    assert_eq!(project_version_from_manifest("environment: 3.19.0\n"), None);
}

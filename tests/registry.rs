use sdkman::error::{CliError, FileError};
use sdkman::layout::{
    candidate_dir, current_path, manifest_path, tmp_copy_path, tmp_dir, validate_version_path, version_path, EntryKind,
};
use sdkman::layout::home_from_env;
use sdkman::path::FsPath;
use sdkman::registry::{check_file_exists, known_candidates, read_file_content, validate_candidate};
use sdkman::text::{parse_candidates, trim};

fn strings(v: &[&str]) -> Vec<String> {
    v.iter().map(|s| s.to_string()).collect()
}

#[test]
fn trim_removes_unicode_whitespace_at_both_ends() {
    assert_eq!(trim("   hello world \n\n\t"), "hello world");
    assert_eq!(trim("  a   b   c  "), "a   b   c");
    assert_eq!(trim("\u{3000}こんにちは世界\u{a0}"), "こんにちは世界");
    assert_eq!(trim(" \n\t  \r\n"), "");
}

#[test]
fn known_candidates_parses_csv() {
    assert_eq!(parse_candidates("java,maven,gradle"), strings(&["java", "maven", "gradle"]));
    assert_eq!(parse_candidates(" java, maven,  ,gradle \n"), strings(&["java", "maven", "gradle"]));
    assert_eq!(parse_candidates("kotlin"), strings(&["kotlin"]));
    assert_eq!(parse_candidates(",, ,"), Vec::<String>::new());
}

#[test]
fn should_fail_if_candidate_is_unknown() {
    let candidates = known_candidates(EntryKind::File, Some("scala".to_string())).unwrap();
    assert_eq!(candidates, strings(&["scala"]));
}

#[test]
#[should_panic]
fn should_fail_if_candidate_file_is_missing() {
    known_candidates(EntryKind::Missing, None).unwrap();
}

#[test]
fn default_should_fail_when_candidates_file_missing() {
    assert!(matches!(known_candidates(EntryKind::Missing, None), Err(CliError::ConfigMissing)));
    assert!(matches!(known_candidates(EntryKind::File, None), Err(CliError::ConfigMissing)));
    assert!(matches!(
        known_candidates(EntryKind::Dir, Some("java".to_string())),
        Err(CliError::ConfigMissing)
    ));
}

#[test]
fn home_fails_when_candidates_file_is_empty() {
    let known = known_candidates(EntryKind::File, Some(" , ,  ,".to_string())).unwrap();
    assert!(known.is_empty());
    match validate_candidate(&known, "scala") {
        Err(CliError::InvalidCandidate { candidate }) => assert_eq!(candidate, "scala"),
        other => panic!("unexpected {:?}", other),
    }
}

#[test]
fn home_works_with_candidates_file_whitespace_and_commas() {
    let known = known_candidates(EntryKind::File, Some(" , scala ,  java, , ".to_string())).unwrap();
    assert_eq!(known, strings(&["scala", "java"]));
    assert_eq!(validate_candidate(&known, "scala").unwrap(), "scala");
}

#[test]
fn validate_candidate_returns_owned_string_when_valid() {
    let all = strings(&["java", "maven"]);
    let got = validate_candidate(&all, "java").unwrap();
    assert_eq!(got, "java");
}

#[test]
fn should_error_for_invalid_candidate() {
    let all = strings(&["scala"]);
    match validate_candidate(&all, "notreal") {
        Err(CliError::InvalidCandidate { candidate }) => assert_eq!(candidate, "notreal"),
        other => panic!("unexpected {:?}", other),
    }
    assert!(validate_candidate(&all, "Scala").is_err());
}

#[test]
fn should_read_content_from_file() {
    assert_eq!(read_file_content("5.0.0"), Ok("5.0.0".to_string()));
    assert_eq!(read_file_content("5.9.0\n"), Ok("5.9.0".to_string()));
}

#[test]
fn should_fail_reading_file_content_from_empty_file() {
    assert_eq!(read_file_content(""), Err(FileError::Empty));
    assert_eq!(read_file_content(" \n\t  \r\n"), Err(FileError::Empty));
}

#[test]
fn read_file_content_err_missing_file() {
    let missing = FsPath::parse("/tmp/dir/definitely_missing.txt");
    assert_eq!(check_file_exists(missing, EntryKind::Missing).err(), Some(FileError::NotFound));
}

#[test]
fn read_file_content_err_when_path_is_directory() {
    let dir = FsPath::parse("/tmp/dir");
    assert_eq!(check_file_exists(dir, EntryKind::Dir).err(), Some(FileError::NotFound));
    let file = FsPath::parse("/tmp/dir/version");
    assert_eq!(check_file_exists(file, EntryKind::File).unwrap().to_text(), "/tmp/dir/version");
}

#[test]
fn layout_paths_follow_the_conventional_tree() {
    let root = FsPath::parse("/home/me/.sdkman");
    assert_eq!(manifest_path(&root).to_text(), "/home/me/.sdkman/var/candidates");
    assert_eq!(candidate_dir(&root, "java").to_text(), "/home/me/.sdkman/candidates/java");
    assert_eq!(version_path(&root, "java", "17.0.9-tem").to_text(), "/home/me/.sdkman/candidates/java/17.0.9-tem");
    assert_eq!(current_path(&root, "java").to_text(), "/home/me/.sdkman/candidates/java/current");
    assert_eq!(tmp_dir(&root).to_text(), "/home/me/.sdkman/tmp");
    assert_eq!(tmp_copy_path(&root, "0.0.1").to_text(), "/home/me/.sdkman/tmp/0.0.1");
}

#[test]
fn validate_version_path_returns_path_when_installed() {
    let root = FsPath::parse("/sdk");
    let path = version_path(&root, "java", "17.0.9-tem");
    let got = validate_version_path(path, EntryKind::Dir, "java", "17.0.9-tem").unwrap();
    assert_eq!(got.to_text(), "/sdk/candidates/java/17.0.9-tem");
}

#[test]
fn should_not_set_an_uninstalled_version_as_default() {
    let root = FsPath::parse("/sdk");
    for kind in [EntryKind::Missing, EntryKind::File, EntryKind::Other] {
        let path = version_path(&root, "scala", "0.0.2");
        match validate_version_path(path, kind, "scala", "0.0.2") {
            Err(CliError::NotInstalled { candidate, version }) => {
                assert_eq!(candidate, "scala");
                assert_eq!(version, "0.0.2");
            }
            other => panic!("unexpected {:?}", other.map(|p| p.to_text())),
        }
    }
}

#[test]
fn should_infer_sdkman_dir_from_env_var() {
    let dir = sdkman::layout::infer_sdkman_dir(Some("/home/someone/.sdkman".to_string()), Some("/home/me".to_string()), None);
    assert_eq!(dir.to_text(), "/home/someone/.sdkman");
}

#[test]
fn should_infer_fallback_dir() {
    let dir = sdkman::layout::infer_sdkman_dir(None, Some("/home/me".to_string()), Some("/home/other".to_string()));
    assert_eq!(dir.to_text(), "/home/me/.sdkman");
}

#[test]
fn fallback_respects_overridden_home_dir() {
    let dir = sdkman::layout::fallback_sdkman_dir(Some("/custom/home".to_string()), Some("/home/me".to_string()));
    assert_eq!(dir.to_text(), "/custom/home/.sdkman");
    let empty_home = sdkman::layout::fallback_sdkman_dir(Some(String::new()), Some("/home/me".to_string()));
    assert_eq!(empty_home.to_text(), "/home/me/.sdkman");
    let nothing = sdkman::layout::fallback_sdkman_dir(None, None);
    assert_eq!(nothing.to_text(), ".sdkman");
}

#[test]
fn infer_falls_back_when_env_is_not_unicode() {
    let dir = sdkman::layout::infer_sdkman_dir(None, None, Some("/home/me".to_string()));
    assert_eq!(dir.to_text(), "/home/me/.sdkman");
}

#[test]
fn config_path_needs_the_override_variable() {
    let path = sdkman::layout::config_path(Some("/home/me/.sdkman".to_string())).unwrap();
    assert_eq!(path.to_text(), "/home/me/.sdkman/etc/config");
    assert!(sdkman::layout::config_path(None).is_none());
}

#[test]
fn home_from_env_follows_the_platform_order() {
    let s = |x: &str| Some(x.to_string());
    assert_eq!(home_from_env(s("C:\\Users\\me"), s("D:"), s("\\home"), s("/h")), s("C:\\Users\\me"));
    assert_eq!(home_from_env(s(""), s("D:"), s("\\home"), s("/h")), s("D:\\home"));
    assert_eq!(home_from_env(None, s("D:"), s(""), s("/h")), s("/h"));
    assert_eq!(home_from_env(None, None, s("\\home"), s("/h")), s("/h"));
    assert_eq!(home_from_env(None, None, None, s("")), None);
    assert_eq!(home_from_env(None, None, None, None), None);
}

#[test]
fn validate_version_path_refuses_names_that_are_not_one_component() {
    let root = FsPath::parse("/sdk");
    for version in [".", "..", "current", "current/x", "a/b", ""] {
        let path = version_path(&root, "scala", version);
        assert!(validate_version_path(path, EntryKind::Dir, "scala", version).is_err(), "{version}");
    }
    let path = version_path(&root, "a/b", "1.0");
    assert!(validate_version_path(path, EntryKind::Dir, "a/b", "1.0").is_err());
}

use sdkman::commands::current::{current_of, current_rows, text_le_exec};
use sdkman::commands::help::{select_topic, Topic};
use sdkman::commands::home::home;
use sdkman::error::CliError;
use sdkman::layout::{version_path, EntryKind};
use sdkman::path::FsPath;

#[test]
fn should_show_current_versions_for_all_candidates() {
    let candidates = vec!["kotlin".to_string(), "java".to_string(), "scala".to_string()];
    let versions = vec![Some("1.7.22".to_string()), Some("11.0.15-tem".to_string()), None];
    let rows = current_rows(&candidates, &versions);
    let lines: Vec<String> = rows.iter().map(|r| format!("{} {}", r.candidate, r.version)).collect();
    assert_eq!(lines, vec!["java 11.0.15-tem".to_string(), "kotlin 1.7.22".to_string()]);
}

#[test]
fn should_show_message_when_no_candidates_in_use() {
    let candidates = vec!["kotlin".to_string()];
    let rows = current_rows(&candidates, &vec![None]);
    assert!(rows.is_empty());
}

#[test]
fn text_order_compares_code_points() {
    let s = |x: &str| x.to_string();
    assert!(text_le_exec(&s("java"), &s("kotlin")));
    assert!(!text_le_exec(&s("kotlin"), &s("java")));
    assert!(text_le_exec(&s("java"), &s("javafx")));
    assert!(!text_le_exec(&s("javafx"), &s("java")));
    assert!(text_le_exec(&s("Zig"), &s("ant")));
    assert!(text_le_exec(&s(""), &s("")));
}

#[test]
fn should_error_for_candidate_with_no_current_version() {
    match current_of("kotlin", None) {
        Err(CliError::NoCurrentVersion { candidate }) => assert_eq!(candidate, "kotlin"),
        other => panic!("unexpected {:?}", other),
    }
    assert_eq!(current_of("java", Some("17.0.3-tem".to_string())).unwrap(), "17.0.3-tem");
}

#[test]
fn home_fails_for_uninstalled_version() {
    let root = FsPath::parse("/sdk");
    let path = version_path(&root, "scala", "0.0.2");
    match home(&path, EntryKind::Missing, "scala", "0.0.2") {
        Err(CliError::NotInstalled { candidate, version }) => {
            assert_eq!(candidate, "scala");
            assert_eq!(version, "0.0.2");
        }
        other => panic!("unexpected {:?}", other),
    }
    assert!(home(&path, EntryKind::File, "scala", "0.0.2").is_err());
    assert_eq!(home(&path, EntryKind::Dir, "scala", "0.0.2").unwrap(), "/sdk/candidates/scala/0.0.2");
    let dot = version_path(&root, "scala", ".");
    assert!(home(&dot, EntryKind::Dir, "scala", ".").is_err());
}

#[test]
fn help_topics_accept_names_and_aliases() {
    assert_eq!(select_topic(&None).unwrap(), Topic::Main);
    assert_eq!(select_topic(&Some("  ".to_string())).unwrap(), Topic::Main);
    assert_eq!(select_topic(&Some(" install ".to_string())).unwrap(), Topic::Install);
    assert_eq!(select_topic(&Some("i".to_string())).unwrap(), Topic::Install);
    assert_eq!(select_topic(&Some("ls".to_string())).unwrap(), Topic::List);
    assert_eq!(select_topic(&Some("rm".to_string())).unwrap(), Topic::Uninstall);
    assert_eq!(select_topic(&Some("ug".to_string())).unwrap(), Topic::Upgrade);
    assert_eq!(select_topic(&Some("config".to_string())).unwrap(), Topic::Config);
    assert_eq!(select_topic(&Some("v".to_string())).unwrap(), Topic::Version);
    match select_topic(&Some(" bogus ".to_string())) {
        Err(CliError::UnknownTopic { topic }) => assert_eq!(topic, "bogus"),
        other => panic!("unexpected {:?}", other),
    }
}

#[test]
fn current_rows_keep_every_entry_of_repeated_names() {
    let candidates = vec!["scala".to_string(), "java".to_string(), "scala".to_string()];
    let versions = vec![Some("0.0.2".to_string()), Some("17".to_string()), Some("0.0.1".to_string())];
    let rows = current_rows(&candidates, &versions);
    let names: Vec<&str> = rows.iter().map(|r| r.candidate.as_str()).collect();
    assert_eq!(names, vec!["java", "scala", "scala"]);
    let mut scala_versions: Vec<&str> = rows.iter().filter(|r| r.candidate == "scala").map(|r| r.version.as_str()).collect();
    scala_versions.sort();
    assert_eq!(scala_versions, vec!["0.0.1", "0.0.2"]);
}

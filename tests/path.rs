use sdkman::path::FsPath;

#[test]
fn parse_drops_empty_and_dot_components() {
    let p = FsPath::parse("/home//me/./.sdkman/");
    assert!(p.absolute);
    assert_eq!(p.parts, vec!["home".to_string(), "me".to_string(), ".sdkman".to_string()]);
    assert_eq!(p.to_text(), "/home/me/.sdkman");
}

#[test]
fn parse_relative_keeps_parent_components() {
    let p = FsPath::parse("../0.0.2");
    assert!(!p.absolute);
    assert_eq!(p.parts, vec!["..".to_string(), "0.0.2".to_string()]);
    assert_eq!(p.to_text(), "../0.0.2");
}

#[test]
fn join_with_absolute_replaces_base() {
    let base = FsPath::parse("/sdk/candidates/scala");
    let rel = FsPath::parse("0.0.2");
    assert_eq!(base.join(&rel).to_text(), "/sdk/candidates/scala/0.0.2");
    let abs = FsPath::parse("/elsewhere/0.0.1");
    assert_eq!(base.join(&abs).to_text(), "/elsewhere/0.0.1");
}

#[test]
fn file_name_is_last_component() {
    assert_eq!(FsPath::parse("/sdk/candidates/java/17.0.3-tem/").file_name(), Some("17.0.3-tem".to_string()));
    assert_eq!(FsPath::parse("/sdk/..").file_name(), None);
    assert_eq!(FsPath::parse("/").file_name(), None);
    assert_eq!(FsPath::parse(".").file_name(), None);
    assert_eq!(FsPath::parse("a/b/.").file_name(), Some("b".to_string()));
}

#[test]
fn same_as_compares_components() {
    let a = FsPath::parse("/sdk/candidates/scala/0.0.2");
    let b = FsPath::parse("/sdk//candidates/./scala/0.0.2/");
    let c = FsPath::parse("sdk/candidates/scala/0.0.2");
    let d = FsPath::parse("/sdk/candidates/scala/0.0.1");
    assert!(a.same_as(&b));
    assert!(!a.same_as(&c));
    assert!(!a.same_as(&d));
}

#[test]
fn child_splits_name_into_components() {
    let root = FsPath::parse("/sdk");
    assert_eq!(root.child("var/candidates").to_text(), "/sdk/var/candidates");
    assert_eq!(root.duplicate().to_text(), "/sdk");
}

#[test]
fn split_text_keeps_empty_pieces() {
    assert_eq!(sdkman::path::split_text("a,,b,", ','), vec!["a".to_string(), String::new(), "b".to_string(), String::new()]);
    assert_eq!(sdkman::path::split_text("", ','), vec![String::new()]);
}

use sdkman::error::CliError;
use sdkman::layout::current_path;
use sdkman::ops::FsOp;
use sdkman::path::FsPath;
use sdkman::pointer::{inspect, resolve_current, CurrentPointer, LinkRead, PointerProbe};
use sdkman::switch::{Switch, SwitchOutcome, SwitchStage};
use sdkman::uninstall::{guard, GuardAction, Uninstall, UninstallStage};

fn root() -> FsPath {
    FsPath::parse("/sdk")
}

fn linked_to(target: &str) -> CurrentPointer {
    inspect(PointerProbe { exists: true, is_dir: true, link: LinkRead::Target(target.to_string()) })
}

fn op_text(op: &FsOp) -> String {
    match op {
        FsOp::RemoveLink(p) => format!("remove-link {}", p.to_text()),
        FsOp::RemoveTree(p) => format!("remove-tree {}", p.to_text()),
        FsOp::CreateLink { target, link } => format!("link {} -> {}", link.to_text(), target.to_text()),
        FsOp::CopyInto { source, dest_dir } => format!("copy {} into {}", source.to_text(), dest_dir.to_text()),
        FsOp::Rename { from, to } => format!("rename {} to {}", from.to_text(), to.to_text()),
    }
}

/// Runs a switch, answering each operation from `results` in turn.
fn run_switch(pointer: &CurrentPointer, version: &str, results: &[bool]) -> (Vec<String>, Result<SwitchOutcome, CliError>) {
    let mut s = Switch::start(&root(), "scala", version, pointer);
    let mut ops = Vec::new();
    let mut answers = results.iter();
    loop {
        if let Some(outcome) = s.outcome() {
            return (ops, outcome);
        }
        let op = s.next_op().unwrap();
        ops.push(op_text(&op));
        let ok = *answers.next().unwrap();
        s.advance(if ok { Ok(()) } else { Err("denied".to_string()) });
    }
}

fn run_uninstall(pointer: &CurrentPointer, version: &str, force: bool, results: &[bool]) -> (Vec<String>, bool, Result<(), CliError>) {
    let mut u = Uninstall::start(&root(), "scala", version, pointer, force);
    let stepped = u.stepped_over;
    let mut ops = Vec::new();
    let mut answers = results.iter();
    loop {
        if let Some(outcome) = u.outcome() {
            return (ops, stepped, outcome);
        }
        let op = u.next_op().unwrap();
        ops.push(op_text(&op));
        let ok = *answers.next().unwrap();
        u.advance(if ok { Ok(()) } else { Err("denied".to_string()) });
    }
}

#[test]
fn inspect_classifies_every_pointer_state() {
    let absent = inspect(PointerProbe { exists: false, is_dir: false, link: LinkRead::NotALink });
    assert!(matches!(absent, CurrentPointer::Absent));
    let broken = inspect(PointerProbe { exists: false, is_dir: false, link: LinkRead::Target("/gone".to_string()) });
    assert!(matches!(broken, CurrentPointer::Broken));
    let dir = inspect(PointerProbe { exists: true, is_dir: true, link: LinkRead::NotALink });
    assert!(matches!(dir, CurrentPointer::Fallback));
    let file = inspect(PointerProbe { exists: true, is_dir: false, link: LinkRead::NotALink });
    assert!(matches!(file, CurrentPointer::Other));
    let odd = inspect(PointerProbe { exists: true, is_dir: true, link: LinkRead::UnreadableTarget });
    assert!(matches!(odd, CurrentPointer::Other));
}

#[test]
fn resolve_takes_last_component_of_raw_target() {
    assert_eq!(resolve_current(&linked_to("/sdk/candidates/java/11.0.15-tem")), Some("11.0.15-tem".to_string()));
    assert_eq!(resolve_current(&linked_to("17.0.3-tem")), Some("17.0.3-tem".to_string()));
    assert_eq!(resolve_current(&linked_to("../java/..")), None);
}

#[test]
fn resolve_reports_literal_current_for_real_directory() {
    assert_eq!(resolve_current(&CurrentPointer::Fallback), Some("current".to_string()));
    assert_eq!(resolve_current(&CurrentPointer::Absent), None);
    assert_eq!(resolve_current(&CurrentPointer::Broken), None);
    assert_eq!(resolve_current(&CurrentPointer::Other), None);
}

#[test]
fn switch_replaces_existing_link_with_new_link() {
    let (ops, outcome) = run_switch(&linked_to("/sdk/candidates/scala/0.0.2"), "0.0.1", &[true, true]);
    assert_eq!(ops, vec![
        "remove-link /sdk/candidates/scala/current".to_string(),
        "link /sdk/candidates/scala/current -> /sdk/candidates/scala/0.0.1".to_string(),
    ]);
    assert_eq!(outcome.unwrap(), SwitchOutcome::Symlinked);
}

#[test]
fn switch_without_pointer_links_at_once() {
    let (ops, outcome) = run_switch(&CurrentPointer::Absent, "0.0.1", &[true]);
    assert_eq!(ops.len(), 1);
    assert_eq!(outcome.unwrap(), SwitchOutcome::Symlinked);
}

#[test]
fn should_replace_current_when_current_is_a_real_directory() {
    let (ops, outcome) = run_switch(&CurrentPointer::Fallback, "0.0.2", &[false, true, true]);
    assert_eq!(ops, vec![
        "remove-link /sdk/candidates/scala/current".to_string(),
        "remove-tree /sdk/candidates/scala/current".to_string(),
        "link /sdk/candidates/scala/current -> /sdk/candidates/scala/0.0.2".to_string(),
    ]);
    assert_eq!(outcome.unwrap(), SwitchOutcome::Symlinked);
}

#[test]
fn switch_falls_back_to_copy_when_links_fail() {
    let (ops, outcome) = run_switch(&CurrentPointer::Absent, "0.0.1", &[false, true, true]);
    assert_eq!(ops, vec![
        "link /sdk/candidates/scala/current -> /sdk/candidates/scala/0.0.1".to_string(),
        "copy /sdk/candidates/scala/0.0.1 into /sdk/tmp".to_string(),
        "rename /sdk/tmp/0.0.1 to /sdk/candidates/scala/current".to_string(),
    ]);
    assert_eq!(outcome.unwrap(), SwitchOutcome::CopiedFallback);
    // the copied directory resolves by its own name, per the degraded rule
    let after = inspect(PointerProbe { exists: true, is_dir: true, link: LinkRead::NotALink });
    assert_eq!(resolve_current(&after), Some("current".to_string()));
}

#[test]
fn switch_reports_each_failure() {
    let (_, outcome) = run_switch(&CurrentPointer::Fallback, "0.0.1", &[false, false]);
    match outcome {
        Err(CliError::PointerRemoval { candidate, detail }) => {
            assert_eq!(candidate, "scala");
            assert_eq!(detail, "denied");
        }
        other => panic!("unexpected {:?}", other),
    }
    let (_, outcome) = run_switch(&CurrentPointer::Absent, "0.0.1", &[false, false]);
    assert!(matches!(outcome, Err(CliError::CopyFailed { .. })));
    let (_, outcome) = run_switch(&CurrentPointer::Absent, "0.0.1", &[false, true, false]);
    assert!(matches!(outcome, Err(CliError::RenameFailed { .. })));
}

#[test]
fn switch_twice_resolves_the_same_both_times() {
    for links in [true, false] {
        let answers: &[bool] = if links { &[true, true] } else { &[true, false, true, true] };
        let first_pointer = linked_to("/sdk/candidates/scala/0.0.2");
        let (_, first) = run_switch(&first_pointer, "0.0.1", answers);
        let after_first = match first.unwrap() {
            SwitchOutcome::Symlinked => linked_to("/sdk/candidates/scala/0.0.1"),
            SwitchOutcome::CopiedFallback => CurrentPointer::Fallback,
        };
        let answers2: &[bool] = if links { &[true, true] } else { &[false, true, false, true, true] };
        let (_, second) = run_switch(&after_first, "0.0.1", answers2);
        let after_second = match second.unwrap() {
            SwitchOutcome::Symlinked => linked_to("/sdk/candidates/scala/0.0.1"),
            SwitchOutcome::CopiedFallback => CurrentPointer::Fallback,
        };
        assert_eq!(resolve_current(&after_first), resolve_current(&after_second));
    }
}

#[test]
fn guard_compares_resolved_target_with_version_path() {
    let cand = FsPath::parse("/sdk/candidates/scala");
    let version = FsPath::parse("/sdk/candidates/scala/0.0.2");
    assert_eq!(guard(&cand, &version, &linked_to("0.0.2"), false), GuardAction::Protected);
    assert_eq!(guard(&cand, &version, &linked_to("/sdk/candidates/scala/0.0.2"), true), GuardAction::ClearPointer);
    assert_eq!(guard(&cand, &version, &linked_to("0.0.1"), false), GuardAction::Proceed);
    assert_eq!(guard(&cand, &version, &CurrentPointer::Broken, false), GuardAction::StepOver);
    assert_eq!(guard(&cand, &version, &CurrentPointer::Fallback, false), GuardAction::StepOver);
    assert_eq!(guard(&cand, &version, &CurrentPointer::Other, false), GuardAction::StepOver);
    assert_eq!(guard(&cand, &version, &CurrentPointer::Absent, false), GuardAction::Proceed);
}

#[test]
fn uninstall_fails_when_target_is_current_without_force() {
    let (ops, _, outcome) = run_uninstall(&linked_to("/sdk/candidates/scala/0.0.2"), "0.0.2", false, &[]);
    assert!(ops.is_empty());
    match outcome {
        Err(CliError::CurrentVersionProtected { candidate, version }) => {
            assert_eq!(candidate, "scala");
            assert_eq!(version, "0.0.2");
        }
        other => panic!("unexpected {:?}", other),
    }
}

#[test]
fn uninstall_with_force_removes_pointer_then_version() {
    let (ops, _, outcome) = run_uninstall(&linked_to("/sdk/candidates/scala/0.0.2"), "0.0.2", true, &[true, true]);
    assert_eq!(ops, vec![
        "remove-link /sdk/candidates/scala/current".to_string(),
        "remove-tree /sdk/candidates/scala/0.0.2".to_string(),
    ]);
    assert!(outcome.is_ok());
    let after = inspect(PointerProbe { exists: false, is_dir: false, link: LinkRead::NotALink });
    assert_eq!(resolve_current(&after), None);
}

#[test]
fn uninstall_of_non_current_version_leaves_pointer_alone() {
    for force in [false, true] {
        let (ops, stepped, outcome) = run_uninstall(&linked_to("/sdk/candidates/scala/0.0.2"), "0.0.1", force, &[true]);
        assert_eq!(ops, vec!["remove-tree /sdk/candidates/scala/0.0.1".to_string()]);
        assert!(!stepped);
        assert!(outcome.is_ok());
    }
}

#[test]
fn uninstall_steps_over_broken_pointer() {
    let (ops, stepped, outcome) = run_uninstall(&CurrentPointer::Broken, "0.0.2", false, &[true]);
    assert_eq!(ops, vec!["remove-tree /sdk/candidates/scala/0.0.2".to_string()]);
    assert!(stepped);
    assert!(outcome.is_ok());
}

#[test]
fn uninstall_reports_failures() {
    let (_, _, outcome) = run_uninstall(&CurrentPointer::Absent, "0.0.2", false, &[false]);
    match outcome {
        Err(CliError::DeleteFailed { path, detail }) => {
            assert_eq!(path, "/sdk/candidates/scala/0.0.2");
            assert_eq!(detail, "denied");
        }
        other => panic!("unexpected {:?}", other),
    }
    let (_, _, outcome) = run_uninstall(&linked_to("0.0.2"), "0.0.2", true, &[false, false]);
    assert!(matches!(outcome, Err(CliError::PointerRemoval { .. })));
}

#[test]
fn scenario_switch_then_remove_previous_current() {
    let pointer = linked_to("/sdk/candidates/scala/0.0.2");
    let (_, outcome) = run_switch(&pointer, "0.0.1", &[true, true]);
    assert_eq!(outcome.unwrap(), SwitchOutcome::Symlinked);
    let now = linked_to("/sdk/candidates/scala/0.0.1");
    assert_eq!(resolve_current(&now), Some("0.0.1".to_string()));
    let (ops, _, removed) = run_uninstall(&now, "0.0.2", false, &[true]);
    assert_eq!(ops, vec!["remove-tree /sdk/candidates/scala/0.0.2".to_string()]);
    assert!(removed.is_ok());
}

#[test]
fn scenario_current_version_is_protected() {
    let pointer = linked_to("/sdk/candidates/scala/0.0.2");
    let mut u = Uninstall::start(&root(), "scala", "0.0.2", &pointer, false);
    assert_eq!(u.stage, UninstallStage::Protected);
    assert!(u.next_op().is_none());
    u.advance(Ok(()));
    assert_eq!(u.stage, UninstallStage::Protected);
    assert!(matches!(u.outcome(), Some(Err(CliError::CurrentVersionProtected { .. }))));
    assert_eq!(current_path(&root(), "scala").to_text(), "/sdk/candidates/scala/current");
    let s = Switch::start(&root(), "scala", "0.0.2", &pointer);
    assert_eq!(s.stage, SwitchStage::Unlinking);
}

use fmtcore::session::{Diagnostic, ErrorEmission, IgnorePathSet, ParseSess};

fn ignoring(paths: &[&str]) -> IgnorePathSet {
    IgnorePathSet { entries: paths.iter().map(|p| p.to_string()).collect() }
}

fn diag(file: Option<&str>) -> Diagnostic {
    Diagnostic { file: file.map(|f| f.to_string()), message: "expected item".to_string() }
}

#[test]
fn ignore_set_matches_path_and_children() {
    let set = ignoring(&["/proj/gen", "/proj/a.rs"]);
    assert!(set.is_match("/proj/gen"));
    assert!(set.is_match("/proj/gen/x.rs"));
    assert!(set.is_match("/proj/a.rs"));
    assert!(!set.is_match("/proj/generated.rs"));
    assert!(!set.is_match("/proj/b.rs"));
    assert!(!set.is_match("/proj"));
}

#[test]
fn error_in_ignored_file_can_be_reset() {
    let mut sess = ParseSess::new(ErrorEmission::Default, ignoring(&["/proj/gen"]));
    assert!(!sess.has_errors());
    assert!(!sess.can_reset_errors());
    let shown = sess.emit_diagnostic(&diag(Some("/proj/gen/bad.rs")));
    assert!(!shown);
    assert!(sess.has_errors());
    assert!(sess.can_reset_errors());
    sess.reset_errors();
    assert!(!sess.has_errors());
}

#[test]
fn error_outside_ignored_files_latches() {
    let mut sess = ParseSess::new(ErrorEmission::Default, ignoring(&["/proj/gen"]));
    assert!(sess.emit_diagnostic(&diag(Some("/proj/src/main.rs"))));
    assert!(!sess.can_reset_errors());
    assert!(!sess.emit_diagnostic(&diag(Some("/proj/gen/bad.rs"))));
    assert!(!sess.can_reset_errors());
    assert!(sess.has_errors());
}

#[test]
fn error_without_file_is_not_ignorable() {
    let mut sess = ParseSess::new(ErrorEmission::Default, ignoring(&["/proj/gen"]));
    assert!(sess.emit_diagnostic(&diag(None)));
    assert!(!sess.can_reset_errors());
}

#[test]
fn silent_session_shows_nothing() {
    let mut sess = ParseSess::new(ErrorEmission::Silence, ignoring(&[]));
    assert!(!sess.emit_diagnostic(&diag(Some("/proj/src/main.rs"))));
    assert!(sess.has_errors());
    assert!(!sess.can_reset_errors());
}

#[test]
fn silent_emitter_starts_count_again() {
    let mut sess = ParseSess::new(ErrorEmission::Default, ignoring(&[]));
    assert!(sess.emit_diagnostic(&diag(Some("/x.rs"))));
    sess.set_silent_emitter();
    assert!(!sess.has_errors());
    assert!(!sess.emit_diagnostic(&diag(Some("/x.rs"))));
    assert!(sess.has_errors());
}

#[test]
fn batch_is_replayed_in_order() {
    let mut sess = ParseSess::new(ErrorEmission::Default, ignoring(&["/proj/gen"]));
    let batch = vec![diag(Some("/proj/gen/a.rs")), diag(Some("/proj/b.rs")), diag(Some("/proj/gen/c.rs"))];
    assert_eq!(sess.emit_diagnostics(&batch), vec![false, true, false]);
    assert!(!sess.can_reset_errors());
    assert!(sess.ignore_file("/proj/gen/a.rs"));
    assert!(!sess.ignore_file("/proj/b.rs"));
}

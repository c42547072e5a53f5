use scriptr::toolchain::{classify_fields, classify_line, cargo_args, scan_output, BuildEvent, BuildFailure, BuildScan};

#[test]
fn cargo_arguments_release_quiet() {
    assert_eq!(
        cargo_args("/s/a.rs", true, false),
        vec!["+nightly", "-Zscript", "build", "--manifest-path", "/s/a.rs", "--message-format=json", "--quiet", "--release"]
    );
}

#[test]
fn cargo_arguments_debug_verbose() {
    assert_eq!(
        cargo_args("/s/a.rs", false, true),
        vec!["+nightly", "-Zscript", "build", "--manifest-path", "/s/a.rs", "--message-format=json"]
    );
}

#[test]
fn artifact_line() {
    let line = r#"{"reason":"compiler-artifact","package_id":"a","executable":"/t/debug/a","fresh":false}"#;
    assert!(matches!(classify_line(line), BuildEvent::Artifact(p) if p == "/t/debug/a"));
}

#[test]
fn artifact_without_executable_is_other() {
    let line = r#"{"reason":"compiler-artifact","executable":null}"#;
    assert!(matches!(classify_line(line), BuildEvent::Other));
}

#[test]
fn message_line() {
    let line = r#"{"reason":"compiler-message","message":{"rendered":"error: oops\n","level":"error"}}"#;
    assert!(matches!(classify_line(line), BuildEvent::Diagnostic(t) if t == "error: oops\n"));
}

#[test]
fn unknown_and_malformed_lines_are_other() {
    assert!(matches!(classify_line(r#"{"reason":"build-finished","success":true}"#), BuildEvent::Other));
    assert!(matches!(classify_line("warning: plain text"), BuildEvent::Other));
    assert!(matches!(classify_line(""), BuildEvent::Other));
    assert!(matches!(classify_line(r#"{"executable":"/x"}"#), BuildEvent::Other));
}

#[test]
fn classify_from_fields() {
    let some = |s: &str| Some(s.to_string());
    assert!(matches!(classify_fields(some("compiler-artifact"), some("/x"), None), BuildEvent::Artifact(p) if p == "/x"));
    assert!(matches!(classify_fields(some("compiler-message"), some("/x"), some("m")), BuildEvent::Diagnostic(t) if t == "m"));
    assert!(matches!(classify_fields(some("compiler-message"), None, None), BuildEvent::Other));
    assert!(matches!(classify_fields(None, some("/x"), some("m")), BuildEvent::Other));
}

fn lines(v: &[&str]) -> Vec<String> {
    v.iter().map(|s| s.to_string()).collect()
}

#[test]
fn last_artifact_wins_and_diagnostics_keep_order() {
    let out = lines(&[
        r#"{"reason":"compiler-message","message":{"rendered":"w1"}}"#,
        r#"{"reason":"compiler-artifact","executable":"/t/dep"}"#,
        "garbage",
        r#"{"reason":"compiler-message","message":{"rendered":"w2"}}"#,
        r#"{"reason":"compiler-artifact","executable":"/t/final"}"#,
        r#"{"reason":"build-finished","success":true}"#,
    ]);
    let scan = scan_output(&out);
    assert_eq!(scan.artifact.as_deref(), Some("/t/final"));
    assert_eq!(scan.diagnostics, vec!["w1".to_string(), "w2".to_string()]);
}

#[test]
fn success_returns_artifact() {
    let mut scan = BuildScan::new();
    scan.observe_line(r#"{"reason":"compiler-artifact","executable":"/t/a"}"#);
    assert_eq!(scan.finish(Some(0), String::new()).unwrap(), "/t/a");
}

#[test]
fn success_without_artifact_is_distinct_error() {
    let scan = BuildScan::new();
    assert!(matches!(scan.finish(Some(0), String::new()), Err(BuildFailure::NoArtifact)));
}

#[test]
fn failure_keeps_diagnostics_and_stderr() {
    let mut scan = BuildScan::new();
    scan.observe_line(r#"{"reason":"compiler-artifact","executable":"/t/a"}"#);
    scan.observe_line(r#"{"reason":"compiler-message","message":{"rendered":"error[E0425]\n"}}"#);
    match scan.finish(Some(101), "could not compile".to_string()) {
        Err(BuildFailure::Failed { code, diagnostics, stderr }) => {
            assert_eq!(code, Some(101));
            assert_eq!(diagnostics, vec!["error[E0425]\n".to_string()]);
            assert_eq!(stderr, "could not compile");
        }
        other => panic!("unexpected {other:?}"),
    }
}

#[test]
fn killed_build_is_failure() {
    let scan = BuildScan::new();
    assert!(matches!(scan.finish(None, String::new()), Err(BuildFailure::Failed { code: None, .. })));
}

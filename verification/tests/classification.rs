use compile_outcome::{classify, ArtifactSet, Diagnostic, StructuredReport, VerificationOutcome};

fn diagnostic(severity: Option<&str>, message: &str) -> Diagnostic {
    Diagnostic {
        severity: severity.map(|s| s.to_string()),
        message: Some(message.to_string()),
        text: format!("{{\"message\":\"{}\"}}", message),
    }
}

fn artifacts(names: &[&str]) -> ArtifactSet {
    ArtifactSet { names: names.iter().map(|n| n.to_string()).collect(), text: "{}".to_string() }
}

#[test]
fn an_error_fails_whatever_else_is_there() {
    let items = vec![
        diagnostic(Some("warning"), "w"),
        diagnostic(Some("error"), "e"),
        diagnostic(None, "n"),
    ];
    let with = StructuredReport {
        diagnostics: Some(items.clone()),
        artifacts: Some(artifacts(&["Foo"])),
    };
    let without = StructuredReport { diagnostics: Some(items.clone()), artifacts: None };
    assert_eq!(classify(with), VerificationOutcome::CompilationFailed(items.clone()));
    assert_eq!(classify(without), VerificationOutcome::CompilationFailed(items));
}

#[test]
fn a_lone_error_fails() {
    let items = vec![diagnostic(Some("error"), "e")];
    let report = StructuredReport { diagnostics: Some(items.clone()), artifacts: None };
    let outcome = classify(report);
    assert!(!outcome.is_success());
    assert_eq!(outcome, VerificationOutcome::CompilationFailed(items));
}

#[test]
fn nothing_at_all_is_a_success() {
    let absent = StructuredReport { diagnostics: None, artifacts: None };
    let empty = StructuredReport { diagnostics: Some(Vec::new()), artifacts: None };
    let expected = VerificationOutcome::Success { artifacts: ArtifactSet::empty(), reported: false };
    assert_eq!(classify(absent), expected);
    assert_eq!(classify(empty), expected);
    assert!(expected.is_success());
}

#[test]
fn warnings_are_carried_unchanged() {
    let items = vec![
        diagnostic(Some("warning"), "one"),
        diagnostic(Some("info"), "two"),
        diagnostic(None, "three"),
    ];
    let report = StructuredReport {
        diagnostics: Some(items.clone()),
        artifacts: Some(artifacts(&["Foo"])),
    };
    let outcome = classify(report);
    assert!(outcome.is_success());
    assert_eq!(outcome, VerificationOutcome::SuccessWithWarnings(items));
}

#[test]
fn artifacts_alone_are_a_reported_success() {
    let report = StructuredReport {
        diagnostics: None,
        artifacts: Some(artifacts(&["Foo", "Bar"])),
    };
    assert_eq!(
        classify(report),
        VerificationOutcome::Success { artifacts: artifacts(&["Foo", "Bar"]), reported: true }
    );
}

#[test]
fn an_empty_artifact_set_is_still_reported() {
    let report = StructuredReport { diagnostics: Some(Vec::new()), artifacts: Some(artifacts(&[])) };
    assert_eq!(
        classify(report),
        VerificationOutcome::Success { artifacts: artifacts(&[]), reported: true }
    );
}

#[test]
fn only_the_severity_error_is_fatal() {
    assert!(diagnostic(Some("error"), "m").is_error());
    assert!(!diagnostic(Some("Error"), "m").is_error());
    assert!(!diagnostic(Some("errors"), "m").is_error());
    assert!(!diagnostic(Some("warning"), "m").is_error());
    assert!(!diagnostic(Some(""), "m").is_error());
    assert!(!diagnostic(None, "m").is_error());
}

#[test]
fn the_empty_artifact_set_holds_nothing() {
    let empty = ArtifactSet::empty();
    assert!(empty.names.is_empty());
    assert_eq!(empty.text, "{}");
    assert!(!empty.contains("Foo"));
    assert!(artifacts(&["Foo", "Bar"]).contains("Bar"));
    assert!(!artifacts(&["Foo", "Bar"]).contains("foo"));
}

use restic_restore::errors::AppError;
use restic_restore::text::{contains_str, count_occurrences, str_eq, usize_to_decimal};
use restic_restore::exec::{
    classify_outcome, full_command_args, stderr_is_fatal, ExecMode, ExecutionOutcome,
    ResticRequest,
};

fn outcome(stdout: &str, stderr: &str, success: bool) -> ExecutionOutcome {
    ExecutionOutcome {
        stdout: stdout.to_string(),
        stderr: stderr.to_string(),
        success,
    }
}

#[test]
fn success_passes_stdout_through() {
    let r = classify_outcome(&outcome("[1, 2]", "noise", true), ExecMode::Strict);
    assert_eq!(r.unwrap(), "[1, 2]");
    let r = classify_outcome(&outcome("[]", "noise", true), ExecMode::Lenient);
    assert_eq!(r.unwrap(), "[]");
}

#[test]
fn strict_failure_carries_stderr() {
    match classify_outcome(&outcome("", "something broke", false), ExecMode::Strict) {
        Err(AppError::ResticError(m)) => assert_eq!(m, "something broke"),
        other => panic!("expected ResticError, got {:?}", other),
    }
}

#[test]
fn lenient_wrong_password_is_fatal() {
    match classify_outcome(
        &outcome("", "Fatal: wrong password or no key found", false),
        ExecMode::Lenient,
    ) {
        Err(AppError::RestoreFailed(m)) => {
            assert_eq!(m, "Fatal: wrong password or no key found");
        }
        other => panic!("expected RestoreFailed, got {:?}", other),
    }
}

#[test]
fn lenient_other_fatal_markers() {
    for stderr in [
        "repository does not exist at the given location",
        "unable to open repository: permission denied",
        "could not load snapshot abc: id not found in repository",
    ] {
        assert!(matches!(
            classify_outcome(&outcome("", stderr, false), ExecMode::Lenient),
            Err(AppError::RestoreFailed(_))
        ));
        assert!(stderr_is_fatal(stderr));
    }
    // "snapshot" alone, without "not found", is no fatal marker.
    assert!(!stderr_is_fatal("snapshot restored with minor issues"));
}

#[test]
fn lenient_warning_succeeds_with_stderr_verbatim() {
    let stderr = "ignoring error: permission denied on /var/secret";
    match classify_outcome(&outcome("", stderr, false), ExecMode::Lenient) {
        Ok(text) => {
            assert!(text.contains(stderr));
            assert_eq!(text, format!("Restored with warnings:\n{}", stderr));
        }
        other => panic!("expected success with warning, got {:?}", other),
    }
}

#[test]
fn full_args_prepend_repository_selector() {
    let req = ResticRequest {
        repo: "/srv/repo".to_string(),
        password: "pw".to_string(),
        args: vec!["snapshots".to_string(), "--json".to_string()],
        mode: ExecMode::Strict,
    };
    let argv = full_command_args(&req);
    assert_eq!(argv, vec!["-r", "/srv/repo", "snapshots", "--json"]);
}

#[test]
fn substring_search_matches_std() {
    assert!(contains_str("wrong password given", "wrong password"));
    assert!(contains_str("anything", ""));
    assert!(!contains_str("", "x"));
    assert!(!contains_str("wrong passwor", "wrong password"));
    assert_eq!(count_occurrences("....", ".."), "....".matches("..").count());
    assert_eq!(count_occurrences(".....", ".."), ".....".matches("..").count());
    assert_eq!(count_occurrences("a..b..", ".."), 2);
    assert!(str_eq("abc", "abc"));
    assert!(!str_eq("abc", "abd"));
}

#[test]
fn decimal_rendering_matches_std() {
    assert_eq!(usize_to_decimal(0), "0");
    assert_eq!(usize_to_decimal(7), "7");
    assert_eq!(usize_to_decimal(1234567), "1234567");
}

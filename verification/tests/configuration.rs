use restic_restore::config::{
    apply_binary_path, apply_repositories, config_file_path_for, get_config_file_path,
    mark_setup_completed_in, remove_repository_from, validate_saved_repositories, AppConfig,
    SavedRepository,
};
use restic_restore::errors::AppError;
use restic_restore::locate::{
    binary_candidates, find_restic_binary, resolve_binary_path, set_binary_decision,
    setup_status_from, version_output_confirms,
};

fn repo(id: &str, name: &str, path: &str, password: &str) -> SavedRepository {
    SavedRepository {
        id: id.to_string(),
        name: name.to_string(),
        path: path.to_string(),
        password: password.to_string(),
    }
}

// ---- saved repositories ----

#[test]
fn saved_batch_accepted() {
    let repos = vec![
        repo("one", "First", "/srv/repo1", "pw1"),
        repo("two-2", "Second", "s3:bucket/r", "pw2"),
    ];
    assert!(validate_saved_repositories(&repos).is_ok());
}

#[test]
fn saved_batch_reports_first_failure() {
    let repos = vec![
        repo("ok-id", "Fine", "/srv/repo", "pw"),
        repo("bad id", "Fine", "/srv/repo", "pw"),
    ];
    assert!(matches!(
        validate_saved_repositories(&repos),
        Err(AppError::InvalidRepoIdCharacters)
    ));
    let repos = vec![repo("ok-id", "  ", "/srv/repo", "pw")];
    assert!(matches!(
        validate_saved_repositories(&repos),
        Err(AppError::EmptyRepositoryName)
    ));
    let repos = vec![repo("ok-id", &"n".repeat(201), "/srv/repo", "pw")];
    assert!(matches!(
        validate_saved_repositories(&repos),
        Err(AppError::RepositoryNameTooLong)
    ));
    let repos = vec![repo("ok-id", "Fine", "/srv/repo", "")];
    assert!(matches!(
        validate_saved_repositories(&repos),
        Err(AppError::EmptyPassword)
    ));
}

#[test]
fn removing_a_repository_keeps_the_rest_in_order() {
    let mut config = AppConfig {
        repositories: vec![
            repo("a", "A", "/r/a", "p"),
            repo("b", "B", "/r/b", "p"),
            repo("a", "A again", "/r/a2", "p"),
            repo("c", "C", "/r/c", "p"),
        ],
        restic_binary_path: Some("/usr/bin/restic".to_string()),
        setup_completed: Some(true),
    };
    remove_repository_from(&mut config, "a");
    let ids: Vec<&str> = config.repositories.iter().map(|r| r.id.as_str()).collect();
    assert_eq!(ids, vec!["b", "c"]);
    assert_eq!(config.restic_binary_path.as_deref(), Some("/usr/bin/restic"));
    assert_eq!(config.setup_completed, Some(true));
}

#[test]
fn config_updates_touch_only_their_field() {
    let mut config = AppConfig::default();
    assert!(config.repositories.is_empty());
    apply_repositories(&mut config, vec![repo("a", "A", "/r/a", "p")]);
    assert_eq!(config.repositories.len(), 1);
    assert_eq!(config.setup_completed, None);
    apply_binary_path(&mut config, Some("/opt/restic".to_string()));
    assert_eq!(config.restic_binary_path.as_deref(), Some("/opt/restic"));
    assert_eq!(config.setup_completed, Some(true));
    assert_eq!(config.repositories.len(), 1);
    let mut fresh = AppConfig::default();
    mark_setup_completed_in(&mut fresh);
    assert_eq!(fresh.setup_completed, Some(true));
}

#[test]
fn config_file_path_is_under_the_data_dir() {
    assert_eq!(
        config_file_path_for("/home/u/.local/share"),
        "/home/u/.local/share/app.restic-restore/config.json"
    );
    match get_config_file_path() {
        Ok(p) => assert!(p.ends_with("/app.restic-restore/config.json")),
        Err(m) => assert_eq!(m, "Could not find Application Support directory"),
    }
}

// ---- locating the binary ----

#[test]
fn configured_override_wins_verbatim() {
    let r = find_restic_binary(&Some("/my/own/restic".to_string()));
    assert_eq!(r, "/my/own/restic");
}

#[test]
fn empty_override_falls_back() {
    let r = find_restic_binary(&Some(String::new()));
    // Auto-detection: either a well-known location that exists here, or the
    // bare name left to the search path.
    assert!(!r.is_empty());
    let r2 = find_restic_binary(&None);
    assert_eq!(r, r2);
}

#[test]
fn candidates_follow_the_home_dir() {
    let with_home = binary_candidates(&Some("/home/u".to_string()));
    assert_eq!(with_home.len(), 7);
    assert_eq!(with_home[0], "/opt/homebrew/bin/restic");
    assert_eq!(with_home[5], "/home/u/bin/restic");
    assert_eq!(with_home[6], "/home/u/.local/bin/restic");
    let without = binary_candidates(&None);
    assert_eq!(without.len(), 5);
}

#[test]
fn version_probe_wants_the_tool_name() {
    assert!(version_output_confirms("restic 0.16.4 compiled with go1.21", true));
    assert!(!version_output_confirms("restic 0.16.4", false));
    assert!(!version_output_confirms("some other tool 1.0", true));
}

#[test]
fn setup_status_cases() {
    // A configured binary is always reported at its path.
    let s = setup_status_from(&Some("/my/restic".to_string()), "/my/restic", false, true);
    assert!(s.found);
    assert_eq!(s.path.as_deref(), Some("/my/restic"));
    assert!(!s.valid);
    assert!(s.setup_completed);
    // The search-path fallback is only reported when the probe confirmed it.
    let s = setup_status_from(&None, "restic", true, false);
    assert!(s.found && s.valid);
    assert_eq!(s.path.as_deref(), Some("restic"));
    let s = setup_status_from(&None, "restic", false, false);
    assert!(!s.found && !s.valid && s.path.is_none());
    // An auto-detected location carries the probe's verdict.
    let s = setup_status_from(&None, "/usr/bin/restic", false, false);
    assert!(s.found);
    assert!(!s.valid);
}

#[test]
fn set_binary_path_decisions() {
    assert!(set_binary_decision(&None, false, false).is_ok());
    assert_eq!(
        set_binary_decision(&Some("/gone/restic".to_string()), false, false).unwrap_err(),
        "Restic binary not found at: /gone/restic"
    );
    assert_eq!(
        set_binary_decision(&Some("/bin/sh".to_string()), true, false).unwrap_err(),
        "File is not a valid restic binary: /bin/sh"
    );
    assert!(set_binary_decision(&Some("/usr/bin/restic".to_string()), true, true).is_ok());
}

#[test]
fn resolution_takes_first_existing_candidate() {
    let cands = vec!["/x/a".to_string(), "/x/b".to_string(), "/x/c".to_string()];
    assert_eq!(
        resolve_binary_path(&None, &cands, &vec![false, true, true]),
        "/x/b"
    );
    assert_eq!(
        resolve_binary_path(&None, &cands, &vec![true, false, true]),
        "/x/a"
    );
    assert_eq!(
        resolve_binary_path(&None, &cands, &vec![false, false, false]),
        "restic"
    );
    // A nonempty override wins without consulting the probes; an empty one
    // falls back to them.
    assert_eq!(
        resolve_binary_path(&Some("/o/restic".to_string()), &cands, &vec![true, true, true]),
        "/o/restic"
    );
    assert_eq!(
        resolve_binary_path(&Some(String::new()), &cands, &vec![false, false, true]),
        "/x/c"
    );
}

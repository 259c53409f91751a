use restic_restore::errors::AppError;
use restic_restore::validate::{
    validate_include_path, validate_password, validate_repo_id, validate_repository_path,
    validate_snapshot_id, validate_target_path,
};

// ---- repository locator ----

#[test]
fn repo_empty_rejected() {
    assert!(matches!(
        validate_repository_path(""),
        Err(AppError::EmptyRepositoryPath)
    ));
    assert!(matches!(
        validate_repository_path("   \t"),
        Err(AppError::EmptyRepositoryPath)
    ));
}

#[test]
fn repo_null_rejected() {
    assert!(matches!(
        validate_repository_path("a\0b"),
        Err(AppError::InvalidRepositoryPath)
    ));
}

#[test]
fn repo_traversal_rejected() {
    assert!(matches!(
        validate_repository_path(".."),
        Err(AppError::PathTraversal)
    ));
    assert!(matches!(
        validate_repository_path("../x"),
        Err(AppError::PathTraversal)
    ));
    assert!(matches!(
        validate_repository_path("/backups/../secret"),
        Err(AppError::PathTraversal)
    ));
    assert!(matches!(
        validate_repository_path("a/.."),
        Err(AppError::PathTraversal)
    ));
}

#[test]
fn repo_dots_inside_component_accepted() {
    assert!(validate_repository_path("/backups/..hidden").is_ok());
    assert!(validate_repository_path("/backups/three...dots").is_ok());
    assert!(validate_repository_path("/plain/local/path").is_ok());
}

#[test]
fn repo_unknown_scheme_rejected_with_list() {
    match validate_repository_path("ftp:server/repo") {
        Err(AppError::UnsupportedProtocol(list)) => {
            assert_eq!(list, "s3:, rest:, sftp:, b2:, azure:, gs:, rclone:");
        }
        other => panic!("expected UnsupportedProtocol, got {:?}", other),
    }
}

#[test]
fn repo_known_schemes_accepted() {
    assert!(validate_repository_path("s3:bucket/repo").is_ok());
    assert!(validate_repository_path("rest:http://host/repo").is_ok());
    assert!(validate_repository_path("sftp:user@host:/srv/repo").is_ok());
    assert!(validate_repository_path("b2:bucket").is_ok());
    assert!(validate_repository_path("azure:container").is_ok());
    assert!(validate_repository_path("gs:bucket9").is_ok());
    assert!(validate_repository_path("rclone:remote:path").is_ok());
}

#[test]
fn repo_remote_too_short_rejected() {
    assert!(matches!(
        validate_repository_path("s3:a"),
        Err(AppError::RemotePathTooShort)
    ));
}

#[test]
fn repo_remote_scheme_beats_traversal_check() {
    // A recognized remote is not walked as a local path.
    assert!(validate_repository_path("s3:bucket/../x").is_ok());
}

#[test]
fn repo_drive_prefix_treated_as_local() {
    assert!(validate_repository_path("C:\\restic\\repo").is_ok());
    assert!(validate_repository_path("c:/restic/repo").is_ok());
}

// ---- snapshot id ----

#[test]
fn snapshot_id_accepts_short_and_full() {
    assert!(validate_snapshot_id("a1b2c3d4").is_ok());
    assert!(validate_snapshot_id(&"ab12".repeat(16)).is_ok()); // 64 chars
    assert!(validate_snapshot_id("DEADBEEF00").is_ok());
}

#[test]
fn snapshot_id_too_short_rejected() {
    assert!(matches!(
        validate_snapshot_id("abc123"),
        Err(AppError::SnapshotIdTooShort)
    ));
}

#[test]
fn snapshot_id_too_long_rejected() {
    let id = "a".repeat(65);
    assert!(matches!(
        validate_snapshot_id(&id),
        Err(AppError::SnapshotIdTooLong)
    ));
}

#[test]
fn snapshot_id_non_hex_rejected() {
    assert!(matches!(
        validate_snapshot_id("zz112233"),
        Err(AppError::SnapshotIdNotHex)
    ));
}

#[test]
fn snapshot_id_empty_and_null_rejected() {
    assert!(matches!(
        validate_snapshot_id(""),
        Err(AppError::EmptySnapshotId)
    ));
    assert!(matches!(
        validate_snapshot_id("a1b2\0c3d4"),
        Err(AppError::InvalidSnapshotId)
    ));
}

// ---- target path ----

#[test]
fn target_relative_always_rejected() {
    assert!(matches!(
        validate_target_path("restore/out", true),
        Err(AppError::RelativeTargetPath)
    ));
    assert!(matches!(
        validate_target_path("restore/out", false),
        Err(AppError::RelativeTargetPath)
    ));
}

#[test]
fn target_empty_null_and_traversal_rejected() {
    assert!(matches!(
        validate_target_path("", true),
        Err(AppError::EmptyTargetPath)
    ));
    assert!(matches!(
        validate_target_path("/a\0b", true),
        Err(AppError::InvalidTargetPath)
    ));
    assert!(matches!(
        validate_target_path("/a/../b", true),
        Err(AppError::PathTraversal)
    ));
}

#[test]
fn target_missing_parent_carries_the_parent() {
    match validate_target_path("/nonexistent_root_xyz/out", false) {
        Err(AppError::ParentDirectoryNotFound(p)) => {
            assert_eq!(p, "/nonexistent_root_xyz");
        }
        other => panic!("expected ParentDirectoryNotFound, got {:?}", other),
    }
}

#[test]
fn target_with_existing_parent_accepted() {
    // The target itself need not exist; the parent probe answers true.
    let r = validate_target_path("/tmp/restic_restore_new_target", true).unwrap();
    assert_eq!(r, "/tmp/restic_restore_new_target");
}

#[test]
fn target_directly_under_root_needs_no_probe() {
    // One real component: the parent is the root, never probed.
    assert!(validate_target_path("/fresh_top_level_dir", false).is_ok());
}

// ---- include path ----

#[test]
fn include_path_accepts_up_to_three_dotdot() {
    assert!(validate_include_path("a/b").is_ok());
    assert!(validate_include_path("..a..b..c").is_ok());
}

#[test]
fn include_path_rejects_four_or_more_dotdot() {
    assert!(matches!(
        validate_include_path("..a..b..c..d"),
        Err(AppError::ExcessiveParentTraversal)
    ));
}

#[test]
fn include_path_counts_nonoverlapping() {
    // Five dots hold two non-overlapping `..`; eight hold four.
    assert!(validate_include_path(".....").is_ok());
    assert!(matches!(
        validate_include_path("........"),
        Err(AppError::ExcessiveParentTraversal)
    ));
}

#[test]
fn include_path_rejects_absolute_empty_null() {
    assert!(matches!(
        validate_include_path("/etc"),
        Err(AppError::AbsoluteIncludePath)
    ));
    assert!(matches!(
        validate_include_path(" "),
        Err(AppError::EmptyIncludePath)
    ));
    assert!(matches!(
        validate_include_path("a\0b"),
        Err(AppError::InvalidIncludePath)
    ));
}

// ---- repository id ----

#[test]
fn repo_id_accepts_word_chars() {
    assert!(validate_repo_id("my-repo_1").is_ok());
}

#[test]
fn repo_id_rejects_space_and_traversal() {
    assert!(matches!(
        validate_repo_id("my repo"),
        Err(AppError::InvalidRepoIdCharacters)
    ));
    assert!(matches!(
        validate_repo_id("../x"),
        Err(AppError::InvalidRepoIdCharacters)
    ));
}

#[test]
fn repo_id_rejects_empty_null_long() {
    assert!(matches!(validate_repo_id(""), Err(AppError::EmptyRepoId)));
    assert!(matches!(
        validate_repo_id("a\0b"),
        Err(AppError::InvalidRepoId)
    ));
    let long = "a".repeat(101);
    assert!(matches!(
        validate_repo_id(&long),
        Err(AppError::RepoIdTooLong)
    ));
    assert!(validate_repo_id(&"a".repeat(100)).is_ok());
}

// ---- password ----

#[test]
fn password_rules() {
    assert!(validate_password("hunter2").is_ok());
    assert!(matches!(
        validate_password(""),
        Err(AppError::EmptyPassword)
    ));
    // A password of blanks is not empty: only the empty string is.
    assert!(validate_password("   ").is_ok());
    assert!(matches!(
        validate_password("a\0b"),
        Err(AppError::InvalidPassword)
    ));
}

// ---- rendered messages ----

#[test]
fn messages_render_like_the_taxonomy() {
    assert_eq!(
        AppError::SnapshotIdTooShort.message(),
        "Snapshot ID too short (minimum 8 characters)"
    );
    assert_eq!(
        AppError::UnsupportedProtocol("s3:, rest:".to_string()).message(),
        "Unsupported repository protocol. Expected one of: s3:, rest:"
    );
    assert_eq!(
        AppError::ParentDirectoryNotFound("/gone".to_string()).message(),
        "Parent directory does not exist: /gone"
    );
    assert_eq!(
        AppError::ResticError("boom".to_string()).message(),
        "Restic error: boom"
    );
    assert_eq!(AppError::Storage("plain text".to_string()).message(), "plain text");
}

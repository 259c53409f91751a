use restic_restore::errors::AppError;
use restic_restore::exec::{ExecMode, ExecutionOutcome};
use restic_restore::models::{collect_file_nodes, parse_snapshot_list};
use restic_restore::ops::{
    check_target_on_disk, finish_browse, finish_connect, finish_list_snapshots, finish_restore,
    finish_restore_selective, finish_snapshot_details, finish_snapshot_stats, prepare_browse,
    prepare_connect, prepare_list_snapshots, prepare_restore, prepare_restore_selective,
    prepare_snapshot_stats,
};

fn ok_outcome(stdout: &str) -> ExecutionOutcome {
    ExecutionOutcome {
        stdout: stdout.to_string(),
        stderr: String::new(),
        success: true,
    }
}

fn failed_outcome(stderr: &str) -> ExecutionOutcome {
    ExecutionOutcome {
        stdout: String::new(),
        stderr: stderr.to_string(),
        success: false,
    }
}

// ---- planning ----

#[test]
fn connect_plans_probe_args() {
    let req = prepare_connect("/srv/repo", "pw").unwrap();
    assert_eq!(req.args, vec!["snapshots", "--latest", "1", "--json"]);
    assert_eq!(req.repo, "/srv/repo");
    assert_eq!(req.password, "pw");
    assert!(matches!(req.mode, ExecMode::Strict));
}

#[test]
fn connect_validates_before_planning() {
    assert!(matches!(
        prepare_connect("", "pw"),
        Err(AppError::EmptyRepositoryPath)
    ));
    assert!(matches!(
        prepare_connect("/srv/repo", ""),
        Err(AppError::EmptyPassword)
    ));
}

#[test]
fn list_plans_json_listing() {
    let req = prepare_list_snapshots("s3:bucket/repo", "pw").unwrap();
    assert_eq!(req.args, vec!["snapshots", "--json"]);
}

#[test]
fn browse_appends_optional_path() {
    let req = prepare_browse("/srv/repo", "pw", "a1b2c3d4", &None).unwrap();
    assert_eq!(req.args, vec!["ls", "--json", "a1b2c3d4"]);
    let req = prepare_browse("/srv/repo", "pw", "a1b2c3d4", &Some("home/docs".to_string())).unwrap();
    assert_eq!(req.args, vec!["ls", "--json", "a1b2c3d4", "home/docs"]);
    assert!(matches!(
        prepare_browse("/srv/repo", "pw", "a1b2c3d4", &Some("/abs".to_string())),
        Err(AppError::AbsoluteIncludePath)
    ));
}

#[test]
fn restore_plans_lenient_invocation() {
    let req = prepare_restore("/srv/repo", "pw", "a1b2c3d4", "/tmp/restore_out").unwrap();
    assert_eq!(
        req.args,
        vec!["restore", "a1b2c3d4", "--target", "/tmp/restore_out"]
    );
    assert!(matches!(req.mode, ExecMode::Lenient));
}

#[test]
fn restore_rejects_missing_parent_from_disk() {
    match prepare_restore("/srv/repo", "pw", "a1b2c3d4", "/nonexistent_root_xyz/out") {
        Err(AppError::ParentDirectoryNotFound(p)) => assert_eq!(p, "/nonexistent_root_xyz"),
        other => panic!("expected ParentDirectoryNotFound, got {:?}", other),
    }
}

#[test]
fn selective_restore_fans_out_includes_in_order() {
    let paths = vec!["docs/a.txt".to_string(), "pics".to_string()];
    let req =
        prepare_restore_selective("/srv/repo", "pw", "a1b2c3d4", "/tmp/restore_out", &paths)
            .unwrap();
    assert_eq!(
        req.args,
        vec![
            "restore",
            "a1b2c3d4",
            "--target",
            "/tmp/restore_out",
            "--include",
            "docs/a.txt",
            "--include",
            "pics"
        ]
    );
}

#[test]
fn selective_restore_rejects_empty_selection() {
    assert!(matches!(
        prepare_restore_selective("/srv/repo", "pw", "a1b2c3d4", "/tmp/restore_out", &vec![]),
        Err(AppError::NoIncludePaths)
    ));
}

#[test]
fn selective_restore_rejects_bad_include_first() {
    let paths = vec!["fine".to_string(), "/absolute".to_string()];
    assert!(matches!(
        prepare_restore_selective("/srv/repo", "pw", "a1b2c3d4", "/tmp/restore_out", &paths),
        Err(AppError::AbsoluteIncludePath)
    ));
}

#[test]
fn stats_plans_strict_invocations() {
    let req = prepare_snapshot_stats("/srv/repo", "pw", "a1b2c3d4").unwrap();
    assert_eq!(req.args, vec!["stats", "--json", "a1b2c3d4"]);
}

#[test]
fn target_check_probes_the_disk() {
    assert!(check_target_on_disk("/tmp/some_fresh_restore_target").is_ok());
    assert!(matches!(
        check_target_on_disk("/nonexistent_root_xyz/out"),
        Err(AppError::ParentDirectoryNotFound(_))
    ));
    assert!(matches!(
        check_target_on_disk("relative/path"),
        Err(AppError::RelativeTargetPath)
    ));
}

// ---- finishing ----

#[test]
fn finish_connect_reports_fixed_line() {
    assert_eq!(finish_connect(&ok_outcome("[]")).unwrap(), "Connected successfully");
    assert!(matches!(
        finish_connect(&failed_outcome("no repo")),
        Err(AppError::ResticError(_))
    ));
}

#[test]
fn finish_list_parses_snapshot_array() {
    let body = r#"[{"id":"aa11","short_id":"aa","time":"2024-01-01T00:00:00Z",
        "hostname":"box","username":"root","paths":["/home"],"tags":["t1"],
        "tree":"tt","parent":null}]"#;
    let snaps = finish_list_snapshots(&ok_outcome(body)).unwrap();
    assert_eq!(snaps.len(), 1);
    assert_eq!(snaps[0].id, "aa11");
    assert_eq!(snaps[0].short_id, "aa");
    assert_eq!(snaps[0].hostname, "box");
    assert_eq!(snaps[0].paths, vec!["/home"]);
    assert_eq!(snaps[0].tags.as_deref(), Some(&["t1".to_string()][..]));
    assert_eq!(snaps[0].tree.as_deref(), Some("tt"));
    assert_eq!(snaps[0].parent, None);
}

#[test]
fn finish_list_rejects_malformed_json() {
    assert!(matches!(
        finish_list_snapshots(&ok_outcome("not json")),
        Err(AppError::SnapshotJsonParse(_))
    ));
    assert!(matches!(
        finish_list_snapshots(&ok_outcome(r#"[{"id":"aa11"}]"#)),
        Err(AppError::SnapshotJsonParse(_))
    ));
}

#[test]
fn tree_listing_keeps_wellformed_lines_in_order() {
    let body = "{\"struct_type\":\"snapshot\",\"id\":\"x\"}\n\
        {\"struct_type\":\"node\",\"name\":\"a.txt\",\"path\":\"/a.txt\",\"type\":\"file\",\"size\":10}\n\
        this line is not json at all\n\n\
        {\"struct_type\":\"node\",\"name\":\"b\",\"path\":\"/b\",\"type\":\"dir\"}\n";
    let nodes = finish_browse(&ok_outcome(body)).unwrap();
    assert_eq!(nodes.len(), 2);
    assert_eq!(nodes[0].name, "a.txt");
    assert_eq!(nodes[0].size, Some(10));
    assert_eq!(nodes[1].name, "b");
    assert_eq!(nodes[1].node_type, "dir");
    assert_eq!(nodes[1].size, None);
}

#[test]
fn detail_listing_needs_no_marker() {
    let body =
        "{\"name\":\"a\",\"path\":\"/a\",\"type\":\"file\",\"mtime\":\"2024-01-01T00:00:00Z\"}\nbroken\n";
    let nodes = finish_snapshot_details(&ok_outcome(body)).unwrap();
    assert_eq!(nodes.len(), 1);
    assert_eq!(nodes[0].mtime.as_deref(), Some("2024-01-01T00:00:00Z"));
}

#[test]
fn collectors_drop_one_malformed_line_exactly() {
    let good_one = "{\"name\":\"a\",\"path\":\"/a\",\"type\":\"file\"}";
    let good_two = "{\"name\":\"b\",\"path\":\"/b\",\"type\":\"file\"}";
    let with_bad = format!("{}\n{{oops\n{}", good_one, good_two);
    let without_bad = format!("{}\n{}", good_one, good_two);
    let a = collect_file_nodes(&with_bad, false);
    let b = collect_file_nodes(&without_bad, false);
    assert_eq!(a.len(), 2);
    assert_eq!(a.len(), b.len());
    for (x, y) in a.iter().zip(b.iter()) {
        assert_eq!(x.name, y.name);
        assert_eq!(x.path, y.path);
    }
}

#[test]
fn parse_snapshot_list_empty_array() {
    assert_eq!(parse_snapshot_list("[]").unwrap().len(), 0);
}

#[test]
fn finish_restore_reports_and_downgrades() {
    assert_eq!(finish_restore(&ok_outcome("")).unwrap(), "Restore completed");
    let warn = finish_restore(&failed_outcome("ignoring error: unreadable file")).unwrap();
    assert_eq!(warn, "Restored with warnings:\nignoring error: unreadable file");
    assert!(matches!(
        finish_restore(&failed_outcome("wrong password")),
        Err(AppError::RestoreFailed(_))
    ));
}

#[test]
fn finish_selective_restore_counts_items() {
    assert_eq!(
        finish_restore_selective(&ok_outcome(""), 3).unwrap(),
        "Restored 3 item(s) successfully"
    );
    assert_eq!(
        finish_restore_selective(&ok_outcome(""), 12).unwrap(),
        "Restored 12 item(s) successfully"
    );
}

#[test]
fn finish_stats_checks_json_shape() {
    assert_eq!(
        finish_snapshot_stats(&ok_outcome("{\"total_size\": 5}")).unwrap(),
        "{\"total_size\": 5}"
    );
    assert!(matches!(
        finish_snapshot_stats(&ok_outcome("{broken")),
        Err(AppError::StatsJsonParse(_))
    ));
}

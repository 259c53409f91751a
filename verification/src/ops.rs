//! The operation layer: one planning function and one finishing function
//! per use case. Planning validates every argument in a fixed order and
//! builds the exact argument vector of the subcommand; finishing applies
//! the operation's error policy to the captured outcome and parses the
//! response. Between the two, the caller runs the subprocess.

use vstd::prelude::*;

use crate::errors::AppError;
use crate::exec::{classify_outcome, spec_fatal_stderr, ExecMode, ExecutionOutcome, ResticRequest};
use crate::json::{json_check, spec_json_complaint};
use crate::locate::path_exists;
use crate::models::{
    collect_file_nodes, parse_snapshot_list, spec_collect_nodes, spec_parse_snapshot_list,
    FileNode, Snapshot,
};
use crate::text::{spec_decimal, spec_lines, usize_to_decimal};
use crate::validate::{
    include_verdict_matches, password_verdict_matches, repo_verdict_matches,
    snapshot_id_verdict_matches, spec_parent_dir, spec_parts, spec_validate_include_path,
    spec_validate_password, spec_validate_repository,
    spec_validate_snapshot_id, spec_validate_target, target_parent_to_probe,
    target_verdict_matches, validate_include_path, validate_password, validate_repository_path,
    validate_snapshot_id, validate_target_path, IncludeVerdict, PasswordVerdict, RepoVerdict,
    SnapshotIdVerdict, TargetVerdict,
};

verus! {

// ------------------------------------------------------------------
// Shared pieces
// ------------------------------------------------------------------

/// The request plans exactly this invocation.
pub open spec fn req_is(
    req: ResticRequest,
    repo: Seq<char>,
    password: Seq<char>,
    args: Seq<Seq<char>>,
    mode: ExecMode,
) -> bool {
    req.repo@ == repo && req.password@ == password && req.args.deep_view() == args && req.mode
        == mode
}

/// The locator and the password pass, or the first of the two that fails
/// produced its own error: the shared head of every operation's checks.
pub open spec fn repo_password_checked(
    repo: Seq<char>,
    password: Seq<char>,
    r: Result<(), AppError>,
) -> bool {
    let vr = spec_validate_repository(repo);
    let vp = spec_validate_password(password);
    if !(vr is Accept) {
        r matches Err(e) && repo_verdict_matches(vr, Err(e))
    } else if !(vp is Accept) {
        r matches Err(e) && password_verdict_matches(vp, Err(e))
    } else {
        r is Ok
    }
}

/// Validates the locator, then the password.
fn check_repo_and_password(repo: &str, password: &str) -> (r: Result<(), AppError>)
    ensures
        repo_password_checked(repo@, password@, r),
{
    match validate_repository_path(repo) {
        Err(e) => {
            return Err(e);
        },
        Ok(()) => {},
    }
    match validate_password(password) {
        Err(e) => {
            return Err(e);
        },
        Ok(()) => {},
    }
    Ok(())
}

// ------------------------------------------------------------------
// Connect
// ------------------------------------------------------------------

/// The connectivity probe's arguments: the cheapest repository read.
pub open spec fn spec_connect_args() -> Seq<Seq<char>> {
    seq!["snapshots"@, "--latest"@, "1"@, "--json"@]
}

/// Plans the connect operation: checks locator and password, then asks for
/// the latest snapshot as a connectivity probe, strictly.
pub fn prepare_connect(repo: &str, password: &str) -> (r: Result<ResticRequest, AppError>)
    ensures
        (match r {
            Ok(req) => repo_password_checked(repo@, password@, Ok(())) && req_is(
                req,
                repo@,
                password@,
                spec_connect_args(),
                ExecMode::Strict,
            ),
            Err(e) => repo_password_checked(repo@, password@, Err(e)),
        }),
{
    match check_repo_and_password(repo, password) {
        Err(e) => {
            return Err(e);
        },
        Ok(()) => {},
    }
    let mut args: Vec<String> = Vec::new();
    args.push(String::from_str("snapshots"));
    args.push(String::from_str("--latest"));
    args.push(String::from_str("1"));
    args.push(String::from_str("--json"));
    proof {
        assert(args.deep_view() =~= spec_connect_args());
    }
    Ok(
        ResticRequest {
            repo: String::from_str(repo),
            password: String::from_str(password),
            args,
            mode: ExecMode::Strict,
        },
    )
}

/// Finishes the connect operation: any strict failure is surfaced, and a
/// success is reported with a fixed confirmation line.
pub fn finish_connect(outcome: &ExecutionOutcome) -> (r: Result<String, AppError>)
    ensures
        outcome.success ==> (r matches Ok(s) && s@ == "Connected successfully"@),
        !outcome.success ==> (r matches Err(e) && e matches AppError::ResticError(m) && m@
            == outcome.stderr@),
{
    match classify_outcome(outcome, ExecMode::Strict) {
        Ok(_) => Ok(String::from_str("Connected successfully")),
        Err(e) => Err(e),
    }
}

// ------------------------------------------------------------------
// List snapshots
// ------------------------------------------------------------------

/// The listing's arguments.
pub open spec fn spec_list_args() -> Seq<Seq<char>> {
    seq!["snapshots"@, "--json"@]
}

/// Plans the snapshot listing: checks locator and password, then asks for
/// all snapshots as JSON, strictly.
pub fn prepare_list_snapshots(repo: &str, password: &str) -> (r: Result<ResticRequest, AppError>)
    ensures
        (match r {
            Ok(req) => repo_password_checked(repo@, password@, Ok(())) && req_is(
                req,
                repo@,
                password@,
                spec_list_args(),
                ExecMode::Strict,
            ),
            Err(e) => repo_password_checked(repo@, password@, Err(e)),
        }),
{
    match check_repo_and_password(repo, password) {
        Err(e) => {
            return Err(e);
        },
        Ok(()) => {},
    }
    let mut args: Vec<String> = Vec::new();
    args.push(String::from_str("snapshots"));
    args.push(String::from_str("--json"));
    proof {
        assert(args.deep_view() =~= spec_list_args());
    }
    Ok(
        ResticRequest {
            repo: String::from_str(repo),
            password: String::from_str(password),
            args,
            mode: ExecMode::Strict,
        },
    )
}

/// Finishes the snapshot listing: a strict failure is surfaced, and a
/// successful response must parse as a JSON array of snapshot records.
pub fn finish_list_snapshots(outcome: &ExecutionOutcome) -> (r: Result<Vec<Snapshot>, AppError>)
    ensures
        !outcome.success ==> (r matches Err(e) && e matches AppError::ResticError(m) && m@
            == outcome.stderr@),
        outcome.success ==> (match spec_parse_snapshot_list(outcome.stdout@) {
            Result::Ok(snaps) => r matches Ok(v) && v.deep_view() == snaps,
            Result::Err(m) => r matches Err(e) && e matches AppError::SnapshotJsonParse(mm) && mm@
                == m,
        }),
{
    match classify_outcome(outcome, ExecMode::Strict) {
        Ok(stdout) => parse_snapshot_list(stdout.as_str()),
        Err(e) => Err(e),
    }
}

// ------------------------------------------------------------------
// Snapshot details and browsing
// ------------------------------------------------------------------

/// The tree-listing arguments: the snapshot, and within it optionally one
/// path.
pub open spec fn spec_ls_args(id: Seq<char>, path: Option<Seq<char>>) -> Seq<Seq<char>> {
    match path {
        Some(p) => seq!["ls"@, "--json"@, id, p],
        None => seq!["ls"@, "--json"@, id],
    }
}

/// Plans the detail listing of a whole snapshot: checks locator, password
/// and snapshot id, then asks for the tree as line-delimited JSON, strictly.
pub fn prepare_snapshot_details(repo: &str, password: &str, snapshot_id: &str) -> (r: Result<
    ResticRequest,
    AppError,
>)
    ensures
        (match r {
            Ok(req) => repo_password_checked(repo@, password@, Ok(())) && spec_validate_snapshot_id(
                snapshot_id@,
            ) is Accept && req_is(
                req,
                repo@,
                password@,
                spec_ls_args(snapshot_id@, None),
                ExecMode::Strict,
            ),
            Err(e) => {
                if !(repo_password_checked(repo@, password@, Ok(()))) {
                    repo_password_checked(repo@, password@, Err(e))
                } else {
                    snapshot_id_verdict_matches(spec_validate_snapshot_id(snapshot_id@), Err(e))
                }
            },
        }),
{
    match check_repo_and_password(repo, password) {
        Err(e) => {
            return Err(e);
        },
        Ok(()) => {},
    }
    match validate_snapshot_id(snapshot_id) {
        Err(e) => {
            return Err(e);
        },
        Ok(()) => {},
    }
    let mut args: Vec<String> = Vec::new();
    args.push(String::from_str("ls"));
    args.push(String::from_str("--json"));
    args.push(String::from_str(snapshot_id));
    proof {
        assert(args.deep_view() =~= spec_ls_args(snapshot_id@, None));
    }
    Ok(
        ResticRequest {
            repo: String::from_str(repo),
            password: String::from_str(password),
            args,
            mode: ExecMode::Strict,
        },
    )
}

/// Finishes the detail listing: every line that parses as a file record is
/// kept, in order; all other lines are silently dropped.
pub fn finish_snapshot_details(outcome: &ExecutionOutcome) -> (r: Result<Vec<FileNode>, AppError>)
    ensures
        !outcome.success ==> (r matches Err(e) && e matches AppError::ResticError(m) && m@
            == outcome.stderr@),
        outcome.success ==> (r matches Ok(v) && v.deep_view() == spec_collect_nodes(
            spec_lines(outcome.stdout@),
            false,
        )),
{
    match classify_outcome(outcome, ExecMode::Strict) {
        Ok(stdout) => Ok(collect_file_nodes(stdout.as_str(), false)),
        Err(e) => Err(e),
    }
}

/// Plans browsing below one path of a snapshot: as the detail listing, but
/// an optional sub-path is validated as an include path and appended.
pub fn prepare_browse(repo: &str, password: &str, snapshot_id: &str, path: &Option<String>) -> (r:
    Result<ResticRequest, AppError>)
    ensures
        (match r {
            Ok(req) => repo_password_checked(repo@, password@, Ok(())) && spec_validate_snapshot_id(
                snapshot_id@,
            ) is Accept && (match path.deep_view() {
                Some(p) => spec_validate_include_path(p) is Accept,
                None => true,
            }) && req_is(
                req,
                repo@,
                password@,
                spec_ls_args(snapshot_id@, path.deep_view()),
                ExecMode::Strict,
            ),
            Err(e) => {
                if !(repo_password_checked(repo@, password@, Ok(()))) {
                    repo_password_checked(repo@, password@, Err(e))
                } else if !(spec_validate_snapshot_id(snapshot_id@) is Accept) {
                    snapshot_id_verdict_matches(spec_validate_snapshot_id(snapshot_id@), Err(e))
                } else {
                    path.deep_view() matches Some(p) && include_verdict_matches(
                        spec_validate_include_path(p),
                        Err(e),
                    )
                }
            },
        }),
{
    match check_repo_and_password(repo, password) {
        Err(e) => {
            return Err(e);
        },
        Ok(()) => {},
    }
    match validate_snapshot_id(snapshot_id) {
        Err(e) => {
            return Err(e);
        },
        Ok(()) => {},
    }
    match path {
        Some(p) => {
            match validate_include_path(p.as_str()) {
                Err(e) => {
                    return Err(e);
                },
                Ok(()) => {},
            }
        },
        None => {},
    }
    let mut args: Vec<String> = Vec::new();
    args.push(String::from_str("ls"));
    args.push(String::from_str("--json"));
    args.push(String::from_str(snapshot_id));
    match path {
        Some(p) => {
            args.push(p.clone());
            proof {
                assert(args.deep_view() =~= spec_ls_args(snapshot_id@, path.deep_view()));
            }
        },
        None => {
            proof {
                assert(args.deep_view() =~= spec_ls_args(snapshot_id@, path.deep_view()));
            }
        },
    }
    Ok(
        ResticRequest {
            repo: String::from_str(repo),
            password: String::from_str(password),
            args,
            mode: ExecMode::Strict,
        },
    )
}

/// Finishes browsing: only lines marked as node records and shaped as file
/// records are kept, in order; all other lines are silently dropped.
pub fn finish_browse(outcome: &ExecutionOutcome) -> (r: Result<Vec<FileNode>, AppError>)
    ensures
        !outcome.success ==> (r matches Err(e) && e matches AppError::ResticError(m) && m@
            == outcome.stderr@),
        outcome.success ==> (r matches Ok(v) && v.deep_view() == spec_collect_nodes(
            spec_lines(outcome.stdout@),
            true,
        )),
{
    match classify_outcome(outcome, ExecMode::Strict) {
        Ok(stdout) => Ok(collect_file_nodes(stdout.as_str(), true)),
        Err(e) => Err(e),
    }
}

// ------------------------------------------------------------------
// Restore
// ------------------------------------------------------------------

/// The full-restore arguments.
pub open spec fn spec_restore_args(id: Seq<char>, target: Seq<char>) -> Seq<Seq<char>> {
    seq!["restore"@, id, "--target"@, target]
}

/// The head of every restore plan: locator, password and snapshot id pass,
/// or the first failure produced its own error.
pub open spec fn restore_head_checked(
    repo: Seq<char>,
    password: Seq<char>,
    id: Seq<char>,
    r: Result<(), AppError>,
) -> bool {
    if !(repo_password_checked(repo, password, Ok(()))) {
        r matches Err(e) && repo_password_checked(repo, password, Err(e))
    } else if !(spec_validate_snapshot_id(id) is Accept) {
        r matches Err(e) && snapshot_id_verdict_matches(spec_validate_snapshot_id(id), Err(e))
    } else {
        r is Ok
    }
}

/// The target's shape passes under some answer of the parent probe: blank,
/// null, relative and traversal rejections do not depend on the disk.
pub open spec fn target_shape_ok(target: Seq<char>) -> bool {
    spec_validate_target(target, true) is Accept
}

/// Plans a full restore: checks locator, password and snapshot id, then the
/// target, probing the disk for the target's parent directory; runs
/// leniently, so that per-file warnings do not fail the whole restore.
pub fn prepare_restore(repo: &str, password: &str, snapshot_id: &str, target: &str) -> (r: Result<
    ResticRequest,
    AppError,
>)
    ensures
        (match r {
            Ok(req) => restore_head_checked(repo@, password@, snapshot_id@, Ok(()))
                && target_shape_ok(target@) && req_is(
                req,
                repo@,
                password@,
                spec_restore_args(snapshot_id@, target@),
                ExecMode::Lenient,
            ),
            Err(e) => {
                if !(restore_head_checked(repo@, password@, snapshot_id@, Ok(()))) {
                    restore_head_checked(repo@, password@, snapshot_id@, Err(e))
                } else if !target_shape_ok(target@) {
                    target_verdict_matches(spec_validate_target(target@, true), target@, Err(e))
                } else {
                    spec_parts(target@).len() >= 2 && (e
                        matches AppError::ParentDirectoryNotFound(q) && q@ == spec_parent_dir(
                        target@,
                    ))
                }
            },
        }),
{
    match check_repo_and_password(repo, password) {
        Err(e) => {
            return Err(e);
        },
        Ok(()) => {},
    }
    match validate_snapshot_id(snapshot_id) {
        Err(e) => {
            return Err(e);
        },
        Ok(()) => {},
    }
    let target_string = match check_target_on_disk(target) {
        Err(e) => {
            return Err(e);
        },
        Ok(t) => t,
    };
    let mut args: Vec<String> = Vec::new();
    args.push(String::from_str("restore"));
    args.push(String::from_str(snapshot_id));
    args.push(String::from_str("--target"));
    args.push(target_string);
    proof {
        assert(args.deep_view() =~= spec_restore_args(snapshot_id@, target@));
    }
    Ok(
        ResticRequest {
            repo: String::from_str(repo),
            password: String::from_str(password),
            args,
            mode: ExecMode::Lenient,
        },
    )
}

/// Validates a restore target against the disk: the pure shape checks, and
/// then the parent-directory probe where one is owed.
pub fn check_target_on_disk(target: &str) -> (r: Result<String, AppError>)
    ensures
        (match r {
            Ok(t) => target_shape_ok(target@) && t@ == target@,
            Err(e) => {
                if !target_shape_ok(target@) {
                    target_verdict_matches(spec_validate_target(target@, true), target@, Err(e))
                } else {
                    spec_parts(target@).len() >= 2 && (e
                        matches AppError::ParentDirectoryNotFound(q) && q@ == spec_parent_dir(
                        target@,
                    ))
                }
            },
        }),
{
    match validate_target_path(target, true) {
        Err(e) => {
            return Err(e);
        },
        Ok(_) => {},
    }
    let parent_exists = match target_parent_to_probe(target) {
        Some(parent) => path_exists(parent.as_str()),
        None => true,
    };
    validate_target_path(target, parent_exists)
}

/// Finishes a full restore: a fatal stderr fails, any other non-zero exit
/// succeeds with the warning text, and a clean exit is confirmed with a
/// fixed line.
pub fn finish_restore(outcome: &ExecutionOutcome) -> (r: Result<String, AppError>)
    ensures
        outcome.success ==> (r matches Ok(s) && s@ == "Restore completed"@),
        !outcome.success && spec_fatal_stderr(outcome.stderr@) ==> (r matches Err(e) && e
            matches AppError::RestoreFailed(m) && m@ == outcome.stderr@),
        !outcome.success && !spec_fatal_stderr(outcome.stderr@) ==> (r matches Ok(s) && s@
            == "Restored with warnings:\n"@ + outcome.stderr@),
{
    match classify_outcome(outcome, ExecMode::Lenient) {
        Ok(s) => {
            if outcome.success {
                Ok(String::from_str("Restore completed"))
            } else {
                Ok(s)
            }
        },
        Err(e) => Err(e),
    }
}

// ------------------------------------------------------------------
// Selective restore
// ------------------------------------------------------------------

/// One `--include <path>` pair per selected path, in the callers' order.
pub open spec fn spec_include_args(paths: Seq<Seq<char>>) -> Seq<Seq<char>>
    decreases paths.len(),
{
    if paths.len() == 0 {
        Seq::empty()
    } else {
        seq!["--include"@, paths[0]] + spec_include_args(paths.drop_first())
    }
}

proof fn lemma_include_args_push(paths: Seq<Seq<char>>, p: Seq<char>)
    ensures
        spec_include_args(paths.push(p)) == spec_include_args(paths) + seq!["--include"@, p],
    decreases paths.len(),
{
    if paths.len() == 0 {
        assert(paths.push(p)[0] == p);
        assert(paths.push(p).drop_first() =~= Seq::<Seq<char>>::empty());
        assert(spec_include_args(Seq::<Seq<char>>::empty()) == Seq::<Seq<char>>::empty());
        assert(spec_include_args(paths.push(p)) =~= spec_include_args(paths) + seq![
            "--include"@,
            p,
        ]);
    } else {
        lemma_include_args_push(paths.drop_first(), p);
        assert(paths.push(p).drop_first() =~= paths.drop_first().push(p));
        assert(paths.push(p)[0] == paths[0]);
        assert(seq!["--include"@, paths[0]] + (spec_include_args(paths.drop_first()) + seq![
            "--include"@,
            p,
        ]) =~= (seq!["--include"@, paths[0]] + spec_include_args(paths.drop_first())) + seq![
            "--include"@,
            p,
        ]);
    }
}

/// Every include path passes, or the first that fails produced its own
/// error; an empty selection is rejected after the per-path checks.
pub open spec fn includes_checked(paths: Seq<Seq<char>>, r: Result<(), AppError>) -> bool {
    if exists|j: int|
        0 <= j < paths.len() && !(#[trigger] spec_validate_include_path(paths[j]) is Accept) {
        r matches Err(e) && exists|j: int|
            0 <= j < paths.len() && include_verdict_matches(
                #[trigger] spec_validate_include_path(paths[j]),
                Err(e),
            ) && (forall|k: int|
                0 <= k < j ==> #[trigger] spec_validate_include_path(paths[k]) is Accept)
    } else if paths.len() == 0 {
        r matches Err(e) && e is NoIncludePaths
    } else {
        r is Ok
    }
}

/// Checks every include path in order, then rejects an empty selection.
fn check_include_paths(include_paths: &Vec<String>) -> (r: Result<(), AppError>)
    ensures
        includes_checked(include_paths.deep_view(), r),
{
    let ghost dv = include_paths.deep_view();
    let mut i: usize = 0;
    while i < include_paths.len()
        invariant
            dv == include_paths.deep_view(),
            dv.len() == include_paths@.len(),
            i <= include_paths@.len(),
            forall|k: int|
                0 <= k < i ==> #[trigger] spec_validate_include_path(dv[k]) is Accept,
        decreases include_paths@.len() - i,
    {
        proof {
            assert(include_paths@[i as int].deep_view() == dv[i as int]);
        }
        match validate_include_path(include_paths[i].as_str()) {
            Err(e) => {
                return Err(e);
            },
            Ok(()) => {},
        }
        i += 1;
    }
    if include_paths.len() == 0 {
        return Err(AppError::NoIncludePaths);
    }
    Ok(())
}

/// Plans a selective restore: as the full restore, then every include path
/// is validated in order, an empty selection is rejected, and one
/// `--include` pair per path is appended in the callers' order.
pub fn prepare_restore_selective(
    repo: &str,
    password: &str,
    snapshot_id: &str,
    target: &str,
    include_paths: &Vec<String>,
) -> (r: Result<ResticRequest, AppError>)
    ensures
        (match r {
            Ok(req) => restore_head_checked(repo@, password@, snapshot_id@, Ok(()))
                && target_shape_ok(target@) && includes_checked(include_paths.deep_view(), Ok(()))
                && req_is(
                req,
                repo@,
                password@,
                spec_restore_args(snapshot_id@, target@) + spec_include_args(
                    include_paths.deep_view(),
                ),
                ExecMode::Lenient,
            ),
            Err(e) => {
                if !(restore_head_checked(repo@, password@, snapshot_id@, Ok(()))) {
                    restore_head_checked(repo@, password@, snapshot_id@, Err(e))
                } else if !target_shape_ok(target@) {
                    target_verdict_matches(spec_validate_target(target@, true), target@, Err(e))
                } else {
                    (spec_parts(target@).len() >= 2 && (e
                        matches AppError::ParentDirectoryNotFound(q) && q@ == spec_parent_dir(
                        target@,
                    ))) || includes_checked(include_paths.deep_view(), Err(e))
                }
            },
        }),
{
    match check_repo_and_password(repo, password) {
        Err(e) => {
            return Err(e);
        },
        Ok(()) => {},
    }
    match validate_snapshot_id(snapshot_id) {
        Err(e) => {
            return Err(e);
        },
        Ok(()) => {},
    }
    let target_string = match check_target_on_disk(target) {
        Err(e) => {
            return Err(e);
        },
        Ok(t) => t,
    };
    match check_include_paths(include_paths) {
        Err(e) => {
            return Err(e);
        },
        Ok(()) => {},
    }
    let mut args: Vec<String> = Vec::new();
    args.push(String::from_str("restore"));
    args.push(String::from_str(snapshot_id));
    args.push(String::from_str("--target"));
    args.push(target_string);
    proof {
        assert(args.deep_view() =~= spec_restore_args(snapshot_id@, target@));
        assert(include_paths.deep_view().take(0) =~= Seq::<Seq<char>>::empty());
        assert(spec_include_args(Seq::<Seq<char>>::empty()) == Seq::<Seq<char>>::empty());
        assert(args.deep_view() =~= spec_restore_args(snapshot_id@, target@) + spec_include_args(
            include_paths.deep_view().take(0),
        ));
    }
    let ghost dv = include_paths.deep_view();
    let mut j: usize = 0;
    while j < include_paths.len()
        invariant
            dv == include_paths.deep_view(),
            dv.len() == include_paths@.len(),
            j <= include_paths@.len(),
            args.deep_view() == spec_restore_args(snapshot_id@, target@) + spec_include_args(
                dv.take(j as int),
            ),
        decreases include_paths@.len() - j,
    {
        let ghost prev = args.deep_view();
        proof {
            assert(include_paths@[j as int].deep_view() == dv[j as int]);
        }
        args.push(String::from_str("--include"));
        args.push(include_paths[j].clone());
        proof {
            lemma_include_args_push(dv.take(j as int), dv[j as int]);
            assert(dv.take(j as int + 1) =~= dv.take(j as int).push(dv[j as int]));
            assert(args.deep_view() =~= prev + seq!["--include"@, dv[j as int]]);
            assert(prev + seq!["--include"@, dv[j as int]] =~= spec_restore_args(
                snapshot_id@,
                target@,
            ) + spec_include_args(dv.take(j as int + 1)));
        }
        j += 1;
    }
    proof {
        assert(dv.take(dv.len() as int) =~= dv);
    }
    Ok(
        ResticRequest {
            repo: String::from_str(repo),
            password: String::from_str(password),
            args,
            mode: ExecMode::Lenient,
        },
    )
}

/// Finishes a selective restore of `count` paths: a fatal stderr fails, any
/// other non-zero exit succeeds with the warning text, and a clean exit
/// reports how many items were selected.
pub fn finish_restore_selective(outcome: &ExecutionOutcome, count: usize) -> (r: Result<
    String,
    AppError,
>)
    ensures
        outcome.success ==> (r matches Ok(s) && s@ == "Restored "@ + spec_decimal(count as nat)
            + " item(s) successfully"@),
        !outcome.success && spec_fatal_stderr(outcome.stderr@) ==> (r matches Err(e) && e
            matches AppError::RestoreFailed(m) && m@ == outcome.stderr@),
        !outcome.success && !spec_fatal_stderr(outcome.stderr@) ==> (r matches Ok(s) && s@
            == "Restored with warnings:\n"@ + outcome.stderr@),
{
    match classify_outcome(outcome, ExecMode::Lenient) {
        Ok(s) => {
            if outcome.success {
                let mut msg = String::from_str("Restored ");
                let n = usize_to_decimal(count);
                msg.append(n.as_str());
                msg.append(" item(s) successfully");
                Ok(msg)
            } else {
                Ok(s)
            }
        },
        Err(e) => Err(e),
    }
}

// ------------------------------------------------------------------
// Statistics
// ------------------------------------------------------------------

/// The per-snapshot statistics arguments.
pub open spec fn spec_stats_args(id: Seq<char>) -> Seq<Seq<char>> {
    seq!["stats"@, "--json"@, id]
}

/// The repository-wide statistics arguments.
pub open spec fn spec_repo_stats_args() -> Seq<Seq<char>> {
    seq!["stats"@, "--json"@, "--mode"@, "raw-data"@]
}

/// Plans the statistics of one snapshot, strictly.
pub fn prepare_snapshot_stats(repo: &str, password: &str, snapshot_id: &str) -> (r: Result<
    ResticRequest,
    AppError,
>)
    ensures
        (match r {
            Ok(req) => restore_head_checked(repo@, password@, snapshot_id@, Ok(())) && req_is(
                req,
                repo@,
                password@,
                spec_stats_args(snapshot_id@),
                ExecMode::Strict,
            ),
            Err(e) => restore_head_checked(repo@, password@, snapshot_id@, Err(e)),
        }),
{
    match check_repo_and_password(repo, password) {
        Err(e) => {
            return Err(e);
        },
        Ok(()) => {},
    }
    match validate_snapshot_id(snapshot_id) {
        Err(e) => {
            return Err(e);
        },
        Ok(()) => {},
    }
    let mut args: Vec<String> = Vec::new();
    args.push(String::from_str("stats"));
    args.push(String::from_str("--json"));
    args.push(String::from_str(snapshot_id));
    proof {
        assert(args.deep_view() =~= spec_stats_args(snapshot_id@));
    }
    Ok(
        ResticRequest {
            repo: String::from_str(repo),
            password: String::from_str(password),
            args,
            mode: ExecMode::Strict,
        },
    )
}

/// Finishes the per-snapshot statistics: the response must be well-formed
/// JSON, which is handed back as text for the caller to interpret.
pub fn finish_snapshot_stats(outcome: &ExecutionOutcome) -> (r: Result<String, AppError>)
    ensures
        !outcome.success ==> (r matches Err(e) && e matches AppError::ResticError(m) && m@
            == outcome.stderr@),
        outcome.success ==> (match spec_json_complaint(outcome.stdout@) {
            Some(m) => r matches Err(e) && e matches AppError::StatsJsonParse(mm) && mm@ == m,
            None => r matches Ok(s) && s@ == outcome.stdout@,
        }),
{
    match classify_outcome(outcome, ExecMode::Strict) {
        Ok(stdout) => {
            match json_check(stdout.as_str()) {
                Some(m) => Err(AppError::StatsJsonParse(m)),
                None => Ok(stdout),
            }
        },
        Err(e) => Err(e),
    }
}

/// Plans the repository-wide raw-data statistics, strictly.
pub fn prepare_repository_stats(repo: &str, password: &str) -> (r: Result<ResticRequest, AppError>)
    ensures
        (match r {
            Ok(req) => repo_password_checked(repo@, password@, Ok(())) && req_is(
                req,
                repo@,
                password@,
                spec_repo_stats_args(),
                ExecMode::Strict,
            ),
            Err(e) => repo_password_checked(repo@, password@, Err(e)),
        }),
{
    match check_repo_and_password(repo, password) {
        Err(e) => {
            return Err(e);
        },
        Ok(()) => {},
    }
    let mut args: Vec<String> = Vec::new();
    args.push(String::from_str("stats"));
    args.push(String::from_str("--json"));
    args.push(String::from_str("--mode"));
    args.push(String::from_str("raw-data"));
    proof {
        assert(args.deep_view() =~= spec_repo_stats_args());
    }
    Ok(
        ResticRequest {
            repo: String::from_str(repo),
            password: String::from_str(password),
            args,
            mode: ExecMode::Strict,
        },
    )
}

/// Finishes the repository-wide statistics: as the per-snapshot ones, under
/// their own error kind.
pub fn finish_repository_stats(outcome: &ExecutionOutcome) -> (r: Result<String, AppError>)
    ensures
        !outcome.success ==> (r matches Err(e) && e matches AppError::ResticError(m) && m@
            == outcome.stderr@),
        outcome.success ==> (match spec_json_complaint(outcome.stdout@) {
            Some(m) => r matches Err(e) && e matches AppError::RepoStatsJsonParse(mm) && mm@ == m,
            None => r matches Ok(s) && s@ == outcome.stdout@,
        }),
{
    match classify_outcome(outcome, ExecMode::Strict) {
        Ok(stdout) => {
            match json_check(stdout.as_str()) {
                Some(m) => Err(AppError::RepoStatsJsonParse(m)),
                None => Ok(stdout),
            }
        },
        Err(e) => Err(e),
    }
}

} // verus!

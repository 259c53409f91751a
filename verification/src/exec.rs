//! The command-execution protocol: the planned invocation handed to the
//! process runner, and the classification of a finished subprocess's outcome
//! under the strict or the lenient error policy.

use vstd::prelude::*;

use crate::errors::AppError;
use crate::text::{contains_str, spec_contains};

verus! {

/// How a non-zero exit status is treated: `Strict` makes every failure hard;
/// `Lenient` keeps fatal markers hard and downgrades the rest to a warning,
/// so that a substantially completed restore is not reported as a failure.
#[derive(Clone, Copy, Debug, PartialEq, Eq, Structural)]
pub enum ExecMode {
    Strict,
    Lenient,
}

/// What one finished subprocess produced: captured output and whether the
/// exit status reported success.
#[derive(Debug)]
pub struct ExecutionOutcome {
    pub stdout: String,
    pub stderr: String,
    pub success: bool,
}

/// A fully validated, fully planned invocation of the external tool. The
/// password travels beside the arguments because it must reach the
/// subprocess through its environment, never through the argument vector.
#[derive(Debug)]
pub struct ResticRequest {
    pub repo: String,
    pub password: String,
    pub args: Vec<String>,
    pub mode: ExecMode,
}

/// The full argument vector of a request: `-r <locator>` prepended to the
/// operation's own arguments.
pub open spec fn spec_full_args(repo: Seq<char>, args: Seq<Seq<char>>) -> Seq<Seq<char>> {
    seq!["-r"@, repo] + args
}

/// Builds the argument vector that the process runner passes to the tool:
/// the repository selector first, then the operation's arguments.
pub fn full_command_args(req: &ResticRequest) -> (r: Vec<String>)
    ensures
        r.deep_view() == spec_full_args(req.repo@, req.args.deep_view()),
{
    let mut out: Vec<String> = Vec::new();
    out.push(String::from_str("-r"));
    out.push(req.repo.clone());
    let mut i: usize = 0;
    while i < req.args.len()
        invariant
            out.deep_view() == spec_full_args(req.repo@, req.args.deep_view().take(i as int)),
            i <= req.args@.len(),
            req.args.deep_view().len() == req.args@.len(),
        decreases req.args@.len() - i,
    {
        let ghost prev = out.deep_view();
        out.push(req.args[i].clone());
        proof {
            assert(out.deep_view() =~= prev.push(req.args.deep_view()[i as int]));
            assert(prev.push(req.args.deep_view()[i as int]) =~= spec_full_args(
                req.repo@,
                req.args.deep_view().take(i as int + 1),
            ));
        }
        i += 1;
    }
    proof {
        assert(req.args.deep_view().take(req.args@.len() as int) =~= req.args.deep_view());
    }
    out
}

/// A captured stderr text marks a fatal condition: the repository is absent
/// or unopenable, the password is wrong, or the named snapshot is missing.
pub open spec fn spec_fatal_stderr(s: Seq<char>) -> bool {
    spec_contains(s, "repository does not exist"@) || spec_contains(s, "wrong password"@)
        || spec_contains(s, "unable to open repository"@) || (spec_contains(s, "snapshot"@)
        && spec_contains(s, "not found"@))
}

/// Whether stderr carries one of the fatal markers.
pub fn stderr_is_fatal(stderr: &str) -> (r: bool)
    ensures
        r == spec_fatal_stderr(stderr@),
{
    contains_str(stderr, "repository does not exist") || contains_str(stderr, "wrong password")
        || contains_str(stderr, "unable to open repository") || (contains_str(stderr, "snapshot")
        && contains_str(stderr, "not found"))
}

/// What classification returns for an outcome, case by case:
/// - success hands the raw stdout through;
/// - a strict failure wraps stderr in a tool-reported error;
/// - a lenient failure with a fatal marker wraps stderr in a restore failure;
/// - any other lenient failure succeeds, with stderr embedded verbatim
///   behind a warning banner.
pub open spec fn classification_matches(
    outcome_stdout: Seq<char>,
    outcome_stderr: Seq<char>,
    success: bool,
    mode: ExecMode,
    r: Result<String, AppError>,
) -> bool {
    if success {
        r matches Ok(s) && s@ == outcome_stdout
    } else if mode is Strict {
        r matches Err(e) && e matches AppError::ResticError(m) && m@ == outcome_stderr
    } else if spec_fatal_stderr(outcome_stderr) {
        r matches Err(e) && e matches AppError::RestoreFailed(m) && m@ == outcome_stderr
    } else {
        r matches Ok(s) && s@ == "Restored with warnings:\n"@ + outcome_stderr
    }
}

/// Classifies a finished subprocess: returns stdout on success, and applies
/// the selected error policy to a non-zero exit.
pub fn classify_outcome(outcome: &ExecutionOutcome, mode: ExecMode) -> (r: Result<String, AppError>)
    ensures
        classification_matches(outcome.stdout@, outcome.stderr@, outcome.success, mode, r),
{
    if outcome.success {
        return Ok(outcome.stdout.clone());
    }
    match mode {
        ExecMode::Strict => Err(AppError::ResticError(outcome.stderr.clone())),
        ExecMode::Lenient => {
            if stderr_is_fatal(outcome.stderr.as_str()) {
                Err(AppError::RestoreFailed(outcome.stderr.clone()))
            } else {
                let mut s = String::from_str("Restored with warnings:\n");
                s.append(outcome.stderr.as_str());
                Ok(s)
            }
        },
    }
}

/// A stderr that names a wrong password is always fatal in lenient mode,
/// whatever else it carries.
pub proof fn lemma_wrong_password_is_fatal(stderr: Seq<char>)
    requires
        spec_contains(stderr, "wrong password"@),
    ensures
        spec_fatal_stderr(stderr),
{
}

/// When a lenient failure carries no fatal marker, the warning text the
/// caller receives contains the captured stderr verbatim.
pub proof fn lemma_warning_preserves_stderr(stderr: Seq<char>)
    ensures
        spec_contains("Restored with warnings:\n"@ + stderr, stderr),
{
    let t = "Restored with warnings:\n"@ + stderr;
    let i = "Restored with warnings:\n"@.len() as int;
    assert(t.subrange(i, i + stderr.len() as int) =~= stderr);
}

} // verus!

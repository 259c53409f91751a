//! The binary locator: resolves the path of the external tool, preferring a
//! configured override, then well-known installation directories, then the
//! bare name looked up through the process's search path; and the decisions
//! built on the `--version` probe of a candidate binary.

use vstd::prelude::*;

use crate::text::{contains_str, spec_contains, str_eq};

verus! {

/// Relies on std::path::Path::exists: whether the path names an entity on
/// disk right now. Nothing can be promised of the answer.
#[verifier::external_body]
pub(crate) fn path_exists(p: &str) -> (r: bool) {
    std::path::Path::new(p).exists()
}

/// Relies on dirs::home_dir: the user's home directory, when the platform
/// reports one that is valid Unicode. Nothing can be promised of the answer.
#[verifier::external_body]
pub(crate) fn home_dir_path() -> (r: Option<String>) {
    dirs::home_dir().and_then(|p| p.to_str().map(|s| s.to_string()))
}

/// Relies on dirs::data_local_dir: the platform's local application-data
/// directory, when it reports one that is valid Unicode. Nothing can be
/// promised of the answer.
#[verifier::external_body]
pub(crate) fn data_local_dir_path() -> (r: Option<String>) {
    dirs::data_local_dir().and_then(|p| p.to_str().map(|s| s.to_string()))
}

/// The fixed well-known installation directories probed for the tool.
pub open spec fn spec_fixed_locations() -> Seq<Seq<char>> {
    seq![
        "/opt/homebrew/bin/restic"@,
        "/usr/local/bin/restic"@,
        "/opt/local/bin/restic"@,
        "/usr/bin/restic"@,
        "/usr/local/opt/restic/bin/restic"@,
    ]
}

/// The candidate locations given the home directory: the fixed list, then
/// the two per-user locations under the home when one is known.
pub open spec fn spec_candidates(home: Option<Seq<char>>) -> Seq<Seq<char>> {
    match home {
        Some(h) => spec_fixed_locations() + seq![h + "/bin/restic"@, h + "/.local/bin/restic"@],
        None => spec_fixed_locations(),
    }
}

/// Builds the candidate list for a given home directory.
pub fn binary_candidates(home: &Option<String>) -> (r: Vec<String>)
    ensures
        r.deep_view() == spec_candidates(home.deep_view()),
{
    let mut out: Vec<String> = Vec::new();
    out.push(String::from_str("/opt/homebrew/bin/restic"));
    out.push(String::from_str("/usr/local/bin/restic"));
    out.push(String::from_str("/opt/local/bin/restic"));
    out.push(String::from_str("/usr/bin/restic"));
    out.push(String::from_str("/usr/local/opt/restic/bin/restic"));
    match home {
        Some(h) => {
            let mut first = h.clone();
            first.append("/bin/restic");
            out.push(first);
            let mut second = h.clone();
            second.append("/.local/bin/restic");
            out.push(second);
            proof {
                assert(out.deep_view() =~= spec_candidates(home.deep_view()));
            }
        },
        None => {
            proof {
                assert(out.deep_view() =~= spec_candidates(home.deep_view()));
            }
        },
    }
    out
}

/// The resolution rule applied to a complete set of probe answers: the
/// first candidate whose existence probe answered true, in the candidates'
/// fixed order, or the bare name for the search path when none did.
pub open spec fn spec_first_existing(
    candidates: Seq<Seq<char>>,
    exists_on_disk: Seq<bool>,
) -> Seq<char>
    decreases candidates.len(),
{
    if candidates.len() == 0 || exists_on_disk.len() == 0 {
        "restic"@
    } else if exists_on_disk[0] {
        candidates[0]
    } else {
        spec_first_existing(candidates.drop_first(), exists_on_disk.drop_first())
    }
}

/// The resolution rule yields the fallback name or one of the candidates.
pub proof fn lemma_first_existing_is_candidate_or_fallback(
    candidates: Seq<Seq<char>>,
    exists_on_disk: Seq<bool>,
)
    ensures
        spec_first_existing(candidates, exists_on_disk) == "restic"@ || candidates.contains(
            spec_first_existing(candidates, exists_on_disk),
        ),
    decreases candidates.len(),
{
    if candidates.len() == 0 || exists_on_disk.len() == 0 {
    } else if exists_on_disk[0] {
        assert(candidates[0] == candidates[0]);
        assert(candidates.contains(candidates[0]));
    } else {
        lemma_first_existing_is_candidate_or_fallback(
            candidates.drop_first(),
            exists_on_disk.drop_first(),
        );
        let r = spec_first_existing(candidates.drop_first(), exists_on_disk.drop_first());
        if r != "restic"@ {
            let i = choose|i: int|
                0 <= i < candidates.drop_first().len() && candidates.drop_first()[i] == r;
            assert(candidates[i + 1] == r);
            assert(candidates.contains(r));
        }
    }
}

/// Probes each candidate location on disk, in order. The answers depend on
/// the disk, so nothing is promised of them beyond their number.
fn probe_candidates(candidates: &Vec<String>) -> (r: Vec<bool>)
    ensures
        r@.len() == candidates@.len(),
{
    let mut out: Vec<bool> = Vec::new();
    let mut i: usize = 0;
    while i < candidates.len()
        invariant
            out@.len() == i,
            i <= candidates@.len(),
        decreases candidates@.len() - i,
    {
        out.push(path_exists(candidates[i].as_str()));
        i += 1;
    }
    out
}

/// Resolution order: a nonempty configured override wins outright and is
/// used verbatim without probing; otherwise the probe answers decide, first
/// hit in the candidates' fixed order; otherwise the bare name, left to the
/// search path.
pub fn resolve_binary_path(
    config_path: &Option<String>,
    candidates: &Vec<String>,
    exists_on_disk: &Vec<bool>,
) -> (r: String)
    requires
        exists_on_disk@.len() == candidates@.len(),
    ensures
        (config_path matches Some(p) && p@.len() > 0) ==> r@ == config_path->Some_0@,
        !(config_path matches Some(p) && p@.len() > 0) ==> r@ == spec_first_existing(
            candidates.deep_view(),
            exists_on_disk@,
        ),
{
    match config_path {
        Some(p) => {
            if p.as_str().unicode_len() > 0 {
                return p.clone();
            }
        },
        None => {},
    }
    let ghost cdv = candidates.deep_view();
    let mut i: usize = 0;
    proof {
        assert(cdv.skip(0) =~= cdv);
        assert(exists_on_disk@.skip(0) =~= exists_on_disk@);
    }
    while i < candidates.len()
        invariant
            i <= candidates@.len(),
            exists_on_disk@.len() == candidates@.len(),
            !(config_path matches Some(p) && p@.len() > 0),
            cdv == candidates.deep_view(),
            cdv.len() == candidates@.len(),
            spec_first_existing(cdv, exists_on_disk@) == spec_first_existing(
                cdv.skip(i as int),
                exists_on_disk@.skip(i as int),
            ),
        decreases candidates@.len() - i,
    {
        proof {
            assert(cdv.skip(i as int)[0] == cdv[i as int]);
            assert(exists_on_disk@.skip(i as int)[0] == exists_on_disk@[i as int]);
            assert(cdv.skip(i as int).drop_first() =~= cdv.skip(i as int + 1));
            assert(exists_on_disk@.skip(i as int).drop_first() =~= exists_on_disk@.skip(
                i as int + 1,
            ));
        }
        if exists_on_disk[i] {
            let r = candidates[i].clone();
            proof {
                assert(r@ == cdv[i as int]);
            }
            return r;
        }
        i += 1;
    }
    proof {
        assert(cdv.skip(cdv.len() as int) =~= Seq::<Seq<char>>::empty());
    }
    String::from_str("restic")
}

/// A location the automatic probe can come up with: one of the fixed
/// directories, or a per-user location under some home directory.
pub open spec fn spec_probe_location(s: Seq<char>) -> bool {
    spec_fixed_locations().contains(s) || exists|h: Seq<char>|
        s == h + "/bin/restic"@ || s == h + "/.local/bin/restic"@
}

/// Resolves the tool's path from the configured override, the well-known
/// locations and the search-path fallback: for some set of probe answers,
/// the result is exactly what the resolution rule picks from the candidate
/// list of some home directory. Runs the whole resolution on every call, so
/// a configuration change takes effect at once.
pub fn find_restic_binary(config_path: &Option<String>) -> (r: String)
    ensures
        (config_path matches Some(p) && p@.len() > 0) ==> r@ == config_path->Some_0@,
        !(config_path matches Some(p) && p@.len() > 0) ==> (exists|
            h: Option<Seq<char>>,
            e: Seq<bool>,
        |
            e.len() == spec_candidates(h).len() && r@ == #[trigger] spec_first_existing(
                spec_candidates(h),
                e,
            )),
        !(config_path matches Some(p) && p@.len() > 0) ==> (r@ == "restic"@ || spec_probe_location(
            r@,
        )),
{
    let home = home_dir_path();
    let candidates = binary_candidates(&home);
    let exists_on_disk = probe_candidates(&candidates);
    let r = resolve_binary_path(config_path, &candidates, &exists_on_disk);
    proof {
        if !(config_path matches Some(p) && p@.len() > 0) {
            let cs = candidates.deep_view();
            assert(exists_on_disk@.len() == spec_candidates(home.deep_view()).len() && r@
                == spec_first_existing(spec_candidates(home.deep_view()), exists_on_disk@));
            lemma_first_existing_is_candidate_or_fallback(cs, exists_on_disk@);
            if r@ != "restic"@ {
                let i = choose|i: int| 0 <= i < cs.len() && cs[i] == r@;
                if i < 5 {
                    assert(spec_fixed_locations()[i] == cs[i]);
                    assert(spec_fixed_locations().contains(r@));
                } else {
                    let h = home.deep_view()->Some_0;
                    assert(r@ == h + "/bin/restic"@ || r@ == h + "/.local/bin/restic"@);
                }
            }
        }
    }
    r
}

/// How the `--version` probe of a candidate binary is judged: the probe
/// succeeded and its standard output names the tool.
pub open spec fn spec_version_confirms(stdout: Seq<char>, success: bool) -> bool {
    success && spec_contains(stdout, "restic"@)
}

/// Judges the captured output of a `<path> --version` probe.
pub fn version_output_confirms(stdout: &str, success: bool) -> (r: bool)
    ensures
        r == spec_version_confirms(stdout@, success),
{
    success && contains_str(stdout, "restic")
}

/// What the setup probe reports to the interface: whether a binary was
/// found, where, whether it answered the version probe, and whether setup
/// was already completed once.
#[derive(Debug, Clone)]
pub struct ResticSetupStatus {
    pub found: bool,
    pub path: Option<String>,
    pub valid: bool,
    pub setup_completed: bool,
}

/// Composes the setup status from the configured override, the resolved
/// path and the probe's answer: a configured binary is reported at its
/// path, probed but never hidden; a search-path fallback is reported only
/// when the probe confirmed it; an auto-detected location is reported with
/// the probe's verdict.
pub fn setup_status_from(
    config_path: &Option<String>,
    detected: &str,
    valid: bool,
    setup_completed: bool,
) -> (r: ResticSetupStatus)
    ensures
        r.setup_completed == setup_completed,
        (config_path matches Some(p) && p@.len() > 0) ==> (r.found && (r.path matches Some(q) && q@
            == config_path->Some_0@) && r.valid == valid),
        !(config_path matches Some(p) && p@.len() > 0) && detected@ == "restic"@ && valid ==> (
        r.found && (r.path matches Some(q) && q@ == detected@) && r.valid),
        !(config_path matches Some(p) && p@.len() > 0) && detected@ == "restic"@ && !valid ==> (
        !r.found && r.path is None && !r.valid),
        !(config_path matches Some(p) && p@.len() > 0) && detected@ != "restic"@ ==> (r.found && (
        r.path matches Some(q) && q@ == detected@) && r.valid == valid),
{
    match config_path {
        Some(p) => {
            if p.as_str().unicode_len() > 0 {
                return ResticSetupStatus {
                    found: true,
                    path: Some(p.clone()),
                    valid,
                    setup_completed,
                };
            }
        },
        None => {},
    }
    if str_eq(detected, "restic") {
        if valid {
            ResticSetupStatus {
                found: true,
                path: Some(String::from_str(detected)),
                valid: true,
                setup_completed,
            }
        } else {
            ResticSetupStatus { found: false, path: None, valid: false, setup_completed }
        }
    } else {
        ResticSetupStatus { found: true, path: Some(String::from_str(detected)), valid, setup_completed }
    }
}

/// Decides whether a configured binary path may be persisted, given the
/// existence probe and the version probe: a nonempty path must exist on
/// disk, and whatever path was given must answer the version probe;
/// clearing the override (no path) is always allowed.
pub fn set_binary_decision(path: &Option<String>, exists_on_disk: bool, valid: bool) -> (r: Result<
    (),
    String,
>)
    ensures
        (match path {
            None => r is Ok,
            Some(p) => {
                if p@.len() > 0 && !exists_on_disk {
                    r matches Err(m) && m@ == "Restic binary not found at: "@ + p@
                } else if !valid {
                    r matches Err(m) && m@ == "File is not a valid restic binary: "@ + p@
                } else {
                    r is Ok
                }
            },
        }),
{
    match path {
        Some(p) => {
            if p.as_str().unicode_len() > 0 && !exists_on_disk {
                let mut m = String::from_str("Restic binary not found at: ");
                m.append(p.as_str());
                return Err(m);
            }
            if !valid {
                let mut m = String::from_str("File is not a valid restic binary: ");
                m.append(p.as_str());
                return Err(m);
            }
            Ok(())
        },
        None => Ok(()),
    }
}

} // verus!

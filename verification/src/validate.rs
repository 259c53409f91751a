//! The validators: one total function per input category. Each validator's
//! outcome is pinned by a spec-level verdict function, so that the laws about
//! rejection and acceptance can be stated and proved once, over the verdicts.

use vstd::prelude::*;

use crate::errors::AppError;
use crate::text::{
    char_is_alphanumeric, count_occurrences, has_char, has_null, is_blank, is_hex_digit_char,
    is_space_char, spec_blank, spec_count_matches, spec_has_char, spec_has_null, spec_starts_with,
    starts_with_str, str_eq, unicode_alphanumeric,
};

verus! {

// ------------------------------------------------------------------
// Repository locator
// ------------------------------------------------------------------

/// The comma-joined allow-list reported with an unsupported-protocol error.
pub open spec fn spec_scheme_list() -> Seq<char> {
    "s3:, rest:, sftp:, b2:, azure:, gs:, rclone:"@
}

/// The locator names a remote: it holds a colon and is not a Windows-style
/// drive path.
pub open spec fn spec_remote_form(s: Seq<char>) -> bool {
    spec_has_char(s, ':') && !spec_drive_prefixed(s)
}

/// The locator begins with the drive prefix `C:` or `c:`.
pub open spec fn spec_drive_prefixed(s: Seq<char>) -> bool {
    s.len() >= 2 && (s[0] == 'C' || s[0] == 'c') && s[1] == ':'
}

/// The locator begins with one of the allow-listed remote schemes.
pub open spec fn spec_known_scheme(s: Seq<char>) -> bool {
    spec_starts_with(s, "s3:"@) || spec_starts_with(s, "rest:"@) || spec_starts_with(s, "sftp:"@)
        || spec_starts_with(s, "b2:"@) || spec_starts_with(s, "azure:"@) || spec_starts_with(
        s,
        "gs:"@,
    ) || spec_starts_with(s, "rclone:"@)
}

/// Position `i` of `s` starts a path component that is exactly `..`.
pub open spec fn spec_dotdot_at(s: Seq<char>, i: int) -> bool {
    0 <= i && i + 2 <= s.len() && s[i] == '.' && s[i + 1] == '.' && (i == 0 || s[i - 1] == '/') && (
    i + 2 == s.len() || s[i + 2] == '/')
}

/// Some path component of `s` is a parent-directory (`..`) marker.
pub open spec fn spec_has_dotdot_segment(s: Seq<char>) -> bool {
    exists|i: int| #[trigger] spec_dotdot_at(s, i)
}

/// What the repository-locator validator decides.
pub enum RepoVerdict {
    Accept,
    Empty,
    NullByte,
    BadScheme,
    TooShort,
    Traversal,
}

/// The decision of the repository-locator validator on `s`.
pub open spec fn spec_validate_repository(s: Seq<char>) -> RepoVerdict {
    if spec_blank(s) {
        RepoVerdict::Empty
    } else if spec_has_null(s) {
        RepoVerdict::NullByte
    } else if spec_remote_form(s) {
        if !spec_known_scheme(s) {
            RepoVerdict::BadScheme
        } else if s.len() < 5 {
            RepoVerdict::TooShort
        } else {
            RepoVerdict::Accept
        }
    } else {
        if spec_has_dotdot_segment(s) {
            RepoVerdict::Traversal
        } else {
            RepoVerdict::Accept
        }
    }
}

/// The error that each non-accepting repository verdict turns into.
pub open spec fn repo_verdict_matches(v: RepoVerdict, r: Result<(), AppError>) -> bool {
    match v {
        RepoVerdict::Accept => r is Ok,
        RepoVerdict::Empty => r matches Err(e) && e is EmptyRepositoryPath,
        RepoVerdict::NullByte => r matches Err(e) && e is InvalidRepositoryPath,
        RepoVerdict::BadScheme => r matches Err(e) && e matches AppError::UnsupportedProtocol(m)
            && m@ == spec_scheme_list(),
        RepoVerdict::TooShort => r matches Err(e) && e is RemotePathTooShort,
        RepoVerdict::Traversal => r matches Err(e) && e is PathTraversal,
    }
}

/// Whether some component of the path is exactly `..`.
pub fn has_traversal_segment(s: &str) -> (r: bool)
    ensures
        r == spec_has_dotdot_segment(s@),
{
    let len = s.unicode_len();
    if len < 2 {
        return false;
    }
    let mut i: usize = 0;
    while i <= len - 2
        invariant
            len == s@.len(),
            2 <= len,
            i <= len - 1,
            forall|k: int| k < i ==> !spec_dotdot_at(s@, k),
        decreases len - i,
    {
        if s.get_char(i) == '.' && s.get_char(i + 1) == '.' && (i == 0 || s.get_char(i - 1) == '/')
            && (i + 2 == len || s.get_char(i + 2) == '/') {
            assert(spec_dotdot_at(s@, i as int));
            return true;
        }
        assert(!spec_dotdot_at(s@, i as int));
        i += 1;
    }
    false
}

/// Checks a repository locator: a local path free of `..` components, or a
/// `scheme:location` remote whose scheme stands on the allow-list.
pub fn validate_repository_path(repo: &str) -> (r: Result<(), AppError>)
    ensures
        repo_verdict_matches(spec_validate_repository(repo@), r),
{
    if is_blank(repo) {
        return Err(AppError::EmptyRepositoryPath);
    }
    if has_null(repo) {
        return Err(AppError::InvalidRepositoryPath);
    }
    let drive = repo.unicode_len() >= 2 && (repo.get_char(0) == 'C' || repo.get_char(0) == 'c')
        && repo.get_char(1) == ':';
    if has_char(repo, ':') && !drive {
        let known = starts_with_str(repo, "s3:") || starts_with_str(repo, "rest:")
            || starts_with_str(repo, "sftp:") || starts_with_str(repo, "b2:") || starts_with_str(
            repo,
            "azure:",
        ) || starts_with_str(repo, "gs:") || starts_with_str(repo, "rclone:");
        if !known {
            return Err(
                AppError::UnsupportedProtocol(
                    String::from_str("s3:, rest:, sftp:, b2:, azure:, gs:, rclone:"),
                ),
            );
        }
        if repo.unicode_len() < 5 {
            return Err(AppError::RemotePathTooShort);
        }
        return Ok(());
    }
    if has_traversal_segment(repo) {
        return Err(AppError::PathTraversal);
    }
    Ok(())
}

// ------------------------------------------------------------------
// Snapshot id
// ------------------------------------------------------------------

/// Every character of `s` is an ASCII hexadecimal digit.
pub open spec fn spec_all_hex(s: Seq<char>) -> bool {
    forall|i: int| 0 <= i < s.len() ==> is_hex_digit_char(#[trigger] s[i])
}

/// What the snapshot-id validator decides.
pub enum SnapshotIdVerdict {
    Accept,
    Empty,
    NullByte,
    TooShort,
    TooLong,
    NotHex,
}

/// The decision of the snapshot-id validator on `s`.
pub open spec fn spec_validate_snapshot_id(s: Seq<char>) -> SnapshotIdVerdict {
    if spec_blank(s) {
        SnapshotIdVerdict::Empty
    } else if spec_has_null(s) {
        SnapshotIdVerdict::NullByte
    } else if s.len() < 8 {
        SnapshotIdVerdict::TooShort
    } else if s.len() > 64 {
        SnapshotIdVerdict::TooLong
    } else if !spec_all_hex(s) {
        SnapshotIdVerdict::NotHex
    } else {
        SnapshotIdVerdict::Accept
    }
}

/// The error that each non-accepting snapshot-id verdict turns into.
pub open spec fn snapshot_id_verdict_matches(v: SnapshotIdVerdict, r: Result<(), AppError>) -> bool {
    match v {
        SnapshotIdVerdict::Accept => r is Ok,
        SnapshotIdVerdict::Empty => r matches Err(e) && e is EmptySnapshotId,
        SnapshotIdVerdict::NullByte => r matches Err(e) && e is InvalidSnapshotId,
        SnapshotIdVerdict::TooShort => r matches Err(e) && e is SnapshotIdTooShort,
        SnapshotIdVerdict::TooLong => r matches Err(e) && e is SnapshotIdTooLong,
        SnapshotIdVerdict::NotHex => r matches Err(e) && e is SnapshotIdNotHex,
    }
}

fn all_hex_digits(s: &str) -> (r: bool)
    ensures
        r == spec_all_hex(s@),
{
    let len = s.unicode_len();
    let mut i: usize = 0;
    while i < len
        invariant
            len == s@.len(),
            i <= len,
            forall|k: int| 0 <= k < i ==> is_hex_digit_char(#[trigger] s@[k]),
        decreases len - i,
    {
        let u = s.get_char(i) as u32;
        if !((0x30 <= u && u <= 0x39) || (0x61 <= u && u <= 0x66) || (0x41 <= u && u <= 0x46)) {
            return false;
        }
        i += 1;
    }
    true
}

/// Checks a snapshot identifier: 8 to 64 characters, all hexadecimal.
pub fn validate_snapshot_id(snapshot_id: &str) -> (r: Result<(), AppError>)
    ensures
        snapshot_id_verdict_matches(spec_validate_snapshot_id(snapshot_id@), r),
{
    if is_blank(snapshot_id) {
        return Err(AppError::EmptySnapshotId);
    }
    if has_null(snapshot_id) {
        return Err(AppError::InvalidSnapshotId);
    }
    if snapshot_id.unicode_len() < 8 {
        return Err(AppError::SnapshotIdTooShort);
    }
    if snapshot_id.unicode_len() > 64 {
        return Err(AppError::SnapshotIdTooLong);
    }
    if !all_hex_digits(snapshot_id) {
        return Err(AppError::SnapshotIdNotHex);
    }
    Ok(())
}

// ------------------------------------------------------------------
// Path components: segments and the parent directory
// ------------------------------------------------------------------

/// A `/`-separated piece names a real component: it is nonempty and not the
/// current-directory marker.
pub open spec fn spec_keep_segment(seg: Seq<char>) -> bool {
    seg.len() > 0 && seg != "."@
}

/// The real components of `s` after the pieces before `cur` have been taken,
/// with `cur` the partial component read so far.
pub open spec fn spec_parts_acc(s: Seq<char>, cur: Seq<char>) -> Seq<Seq<char>>
    decreases s.len(),
{
    if s.len() == 0 {
        if spec_keep_segment(cur) {
            seq![cur]
        } else {
            Seq::empty()
        }
    } else if s[0] == '/' {
        (if spec_keep_segment(cur) {
            seq![cur]
        } else {
            Seq::empty()
        }) + spec_parts_acc(s.drop_first(), Seq::empty())
    } else {
        spec_parts_acc(s.drop_first(), cur.push(s[0]))
    }
}

/// The real path components of `s`: the `/`-separated pieces that are
/// nonempty and not `.`.
pub open spec fn spec_parts(s: Seq<char>) -> Seq<Seq<char>> {
    spec_parts_acc(s, Seq::empty())
}

/// Components joined back into a rooted path: `/` before each component.
pub open spec fn spec_join_slash(parts: Seq<Seq<char>>) -> Seq<char>
    decreases parts.len(),
{
    if parts.len() == 0 {
        Seq::empty()
    } else {
        seq!['/'] + parts[0] + spec_join_slash(parts.drop_first())
    }
}

/// The canonical parent directory of an absolute path: all real components
/// but the last, rooted again. Meaningful only when there are at least two.
pub open spec fn spec_parent_dir(s: Seq<char>) -> Seq<char> {
    spec_join_slash(spec_parts(s).take(spec_parts(s).len() - 1))
}

fn keep_segment(seg: &str) -> (r: bool)
    ensures
        r == spec_keep_segment(seg@),
{
    seg.unicode_len() > 0 && !str_eq(seg, ".")
}

/// Splits a path into its real components.
pub fn path_parts(s: &str) -> (r: Vec<String>)
    ensures
        r.deep_view() == spec_parts(s@),
{
    let len = s.unicode_len();
    let mut parts: Vec<String> = Vec::new();
    let mut seg_start: usize = 0;
    let mut i: usize = 0;
    proof {
        assert(s@.skip(0) =~= s@);
        assert(s@.subrange(0, 0) =~= Seq::<char>::empty());
    }
    while i < len
        invariant
            len == s@.len(),
            seg_start <= i <= len,
            spec_parts(s@) == parts.deep_view() + spec_parts_acc(
                s@.skip(i as int),
                s@.subrange(seg_start as int, i as int),
            ),
        decreases len - i,
    {
        let ghost prev_parts = parts.deep_view();
        let ghost cur = s@.subrange(seg_start as int, i as int);
        proof {
            assert(s@.skip(i as int)[0] == s@[i as int]);
            assert(s@.skip(i as int).drop_first() =~= s@.skip(i as int + 1));
        }
        let c = s.get_char(i);
        if c == '/' {
            let seg = s.substring_char(seg_start, i);
            if keep_segment(seg) {
                parts.push(String::from_str(seg));
                proof {
                    assert(parts.deep_view() =~= prev_parts.push(cur));
                    assert(prev_parts.push(cur) =~= prev_parts + seq![cur]);
                }
            }
            seg_start = i + 1;
            proof {
                assert(s@.subrange(i as int + 1, i as int + 1) =~= Seq::<char>::empty());
            }
        } else {
            proof {
                assert(s@.subrange(seg_start as int, i as int + 1) =~= cur.push(s@[i as int]));
            }
        }
        i += 1;
    }
    proof {
        assert(s@.skip(len as int) =~= Seq::<char>::empty());
    }
    let ghost prev_parts = parts.deep_view();
    let ghost cur = s@.subrange(seg_start as int, len as int);
    let seg = s.substring_char(seg_start, len);
    if keep_segment(seg) {
        parts.push(String::from_str(seg));
        proof {
            assert(parts.deep_view() =~= prev_parts.push(cur));
            assert(prev_parts.push(cur) =~= prev_parts + seq![cur]);
        }
    } else {
        proof {
            assert(parts.deep_view() + Seq::<Seq<char>>::empty() =~= parts.deep_view());
        }
    }
    parts
}

proof fn lemma_join_slash_push(parts: Seq<Seq<char>>, last: Seq<char>)
    ensures
        spec_join_slash(parts.push(last)) == spec_join_slash(parts) + seq!['/'] + last,
    decreases parts.len(),
{
    if parts.len() == 0 {
        assert(parts.push(last)[0] == last);
        assert(parts.push(last).drop_first() =~= Seq::<Seq<char>>::empty());
        assert(spec_join_slash(Seq::<Seq<char>>::empty()) == Seq::<char>::empty());
        assert(spec_join_slash(parts) == Seq::<char>::empty());
        assert(spec_join_slash(parts.push(last)) =~= spec_join_slash(parts) + seq!['/'] + last);
    } else {
        lemma_join_slash_push(parts.drop_first(), last);
        assert(parts.push(last).drop_first() =~= parts.drop_first().push(last));
        assert(parts.push(last)[0] == parts[0]);
        assert(seq!['/'] + parts[0] + (spec_join_slash(parts.drop_first()) + seq!['/'] + last)
            =~= (seq!['/'] + parts[0] + spec_join_slash(parts.drop_first())) + seq!['/'] + last);
    }
}

/// Joins the first `k` components into a rooted path.
pub fn join_components(parts: &Vec<String>, k: usize) -> (r: String)
    requires
        k <= parts@.len(),
    ensures
        r@ == spec_join_slash(parts.deep_view().take(k as int)),
{
    let mut out = String::new();
    let mut j: usize = 0;
    proof {
        assert(parts.deep_view().take(0) =~= Seq::<Seq<char>>::empty());
    }
    while j < k
        invariant
            k <= parts@.len(),
            j <= k,
            parts.deep_view().len() == parts@.len(),
            out@ == spec_join_slash(parts.deep_view().take(j as int)),
        decreases k - j,
    {
        proof {
            reveal_strlit("/");
            lemma_join_slash_push(parts.deep_view().take(j as int), parts.deep_view()[j as int]);
            assert(parts.deep_view().take(j as int + 1) =~= parts.deep_view().take(j as int).push(
                parts.deep_view()[j as int],
            ));
        }
        out.append("/");
        out.append(parts[j].as_str());
        proof {
            assert(out@ =~= spec_join_slash(parts.deep_view().take(j as int)) + seq!['/']
                + parts.deep_view()[j as int]);
        }
        j += 1;
    }
    out
}

// ------------------------------------------------------------------
// Target path
// ------------------------------------------------------------------

/// `s` is an absolute (rooted) path.
pub open spec fn spec_absolute(s: Seq<char>) -> bool {
    s.len() > 0 && s[0] == '/'
}

/// What the target-path validator decides. `MissingParent` carries the
/// ancestor directory that was not found.
pub enum TargetVerdict {
    Accept,
    Empty,
    NullByte,
    Relative,
    Traversal,
    MissingParent(Seq<char>),
}

/// The decision of the target-path validator on `s`, given whether the
/// target's parent directory exists on disk. The parent is only consulted
/// when the path has two or more real components: a target directly under
/// the root needs no parent probe.
pub open spec fn spec_validate_target(s: Seq<char>, parent_exists: bool) -> TargetVerdict {
    if spec_blank(s) {
        TargetVerdict::Empty
    } else if spec_has_null(s) {
        TargetVerdict::NullByte
    } else if !spec_absolute(s) {
        TargetVerdict::Relative
    } else if spec_has_dotdot_segment(s) {
        TargetVerdict::Traversal
    } else if spec_parts(s).len() >= 2 && !parent_exists {
        TargetVerdict::MissingParent(spec_parent_dir(s))
    } else {
        TargetVerdict::Accept
    }
}

/// The result that each target verdict turns into; acceptance hands the
/// path back unchanged.
pub open spec fn target_verdict_matches(
    v: TargetVerdict,
    s: Seq<char>,
    r: Result<String, AppError>,
) -> bool {
    match v {
        TargetVerdict::Accept => r matches Ok(p) && p@ == s,
        TargetVerdict::Empty => r matches Err(e) && e is EmptyTargetPath,
        TargetVerdict::NullByte => r matches Err(e) && e is InvalidTargetPath,
        TargetVerdict::Relative => r matches Err(e) && e is RelativeTargetPath,
        TargetVerdict::Traversal => r matches Err(e) && e is PathTraversal,
        TargetVerdict::MissingParent(pp) => r matches Err(e) && e
            matches AppError::ParentDirectoryNotFound(q) && q@ == pp,
    }
}

/// Checks a restore target: an absolute path, free of `..` components, whose
/// parent directory must already exist (`parent_exists` reports the probe's
/// answer) unless the target sits directly under the root. The target itself
/// need not exist yet.
pub fn validate_target_path(target: &str, parent_exists: bool) -> (r: Result<String, AppError>)
    ensures
        target_verdict_matches(spec_validate_target(target@, parent_exists), target@, r),
{
    if is_blank(target) {
        return Err(AppError::EmptyTargetPath);
    }
    if has_null(target) {
        return Err(AppError::InvalidTargetPath);
    }
    if !(target.unicode_len() > 0 && target.get_char(0) == '/') {
        return Err(AppError::RelativeTargetPath);
    }
    if has_traversal_segment(target) {
        return Err(AppError::PathTraversal);
    }
    let parts = path_parts(target);
    if parts.len() >= 2 && !parent_exists {
        let parent = join_components(&parts, parts.len() - 1);
        return Err(AppError::ParentDirectoryNotFound(parent));
    }
    Ok(String::from_str(target))
}

/// The parent directory that a target-path check must probe, when one must
/// be probed at all: the pure part of the target check finds the path whose
/// existence decides between acceptance and a missing-parent rejection.
pub fn target_parent_to_probe(target: &str) -> (r: Option<String>)
    ensures
        (match r {
            Some(p) => spec_parts(target@).len() >= 2 && p@ == spec_parent_dir(target@),
            None => spec_parts(target@).len() < 2,
        }),
{
    let parts = path_parts(target);
    if parts.len() >= 2 {
        Some(join_components(&parts, parts.len() - 1))
    } else {
        None
    }
}

// ------------------------------------------------------------------
// Include path
// ------------------------------------------------------------------

/// What the include-path validator decides.
pub enum IncludeVerdict {
    Accept,
    Empty,
    NullByte,
    Excessive,
    Absolute,
}

/// The decision of the include-path validator on `s`: a relative path with
/// at most three literal `..` occurrences.
pub open spec fn spec_validate_include_path(s: Seq<char>) -> IncludeVerdict {
    if spec_blank(s) {
        IncludeVerdict::Empty
    } else if spec_has_null(s) {
        IncludeVerdict::NullByte
    } else if spec_count_matches(s, ".."@, 0) > 3 {
        IncludeVerdict::Excessive
    } else if spec_absolute(s) {
        IncludeVerdict::Absolute
    } else {
        IncludeVerdict::Accept
    }
}

/// The error that each non-accepting include-path verdict turns into.
pub open spec fn include_verdict_matches(v: IncludeVerdict, r: Result<(), AppError>) -> bool {
    match v {
        IncludeVerdict::Accept => r is Ok,
        IncludeVerdict::Empty => r matches Err(e) && e is EmptyIncludePath,
        IncludeVerdict::NullByte => r matches Err(e) && e is InvalidIncludePath,
        IncludeVerdict::Excessive => r matches Err(e) && e is ExcessiveParentTraversal,
        IncludeVerdict::Absolute => r matches Err(e) && e is AbsoluteIncludePath,
    }
}

/// Checks an include path: relative to the snapshot root, with a bounded
/// number of `..` occurrences.
pub fn validate_include_path(include_path: &str) -> (r: Result<(), AppError>)
    ensures
        include_verdict_matches(spec_validate_include_path(include_path@), r),
{
    if is_blank(include_path) {
        return Err(AppError::EmptyIncludePath);
    }
    if has_null(include_path) {
        return Err(AppError::InvalidIncludePath);
    }
    proof {
        reveal_strlit("..");
    }
    if count_occurrences(include_path, "..") > 3 {
        return Err(AppError::ExcessiveParentTraversal);
    }
    if include_path.unicode_len() > 0 && include_path.get_char(0) == '/' {
        return Err(AppError::AbsoluteIncludePath);
    }
    Ok(())
}

// ------------------------------------------------------------------
// Repository id
// ------------------------------------------------------------------

/// A character allowed in a repository id: alphanumeric, hyphen, underscore.
pub open spec fn spec_ok_id_char(c: char) -> bool {
    unicode_alphanumeric(c) || c == '-' || c == '_'
}

/// Every character of `s` is allowed in a repository id.
pub open spec fn spec_all_id_chars(s: Seq<char>) -> bool {
    forall|i: int| 0 <= i < s.len() ==> spec_ok_id_char(#[trigger] s[i])
}

/// What the repository-id validator decides.
pub enum RepoIdVerdict {
    Accept,
    Empty,
    NullByte,
    BadChar,
    TooLong,
}

/// The decision of the repository-id validator on `s`.
pub open spec fn spec_validate_repo_id(s: Seq<char>) -> RepoIdVerdict {
    if spec_blank(s) {
        RepoIdVerdict::Empty
    } else if spec_has_null(s) {
        RepoIdVerdict::NullByte
    } else if !spec_all_id_chars(s) {
        RepoIdVerdict::BadChar
    } else if s.len() > 100 {
        RepoIdVerdict::TooLong
    } else {
        RepoIdVerdict::Accept
    }
}

/// The error that each non-accepting repository-id verdict turns into.
pub open spec fn repo_id_verdict_matches(v: RepoIdVerdict, r: Result<(), AppError>) -> bool {
    match v {
        RepoIdVerdict::Accept => r is Ok,
        RepoIdVerdict::Empty => r matches Err(e) && e is EmptyRepoId,
        RepoIdVerdict::NullByte => r matches Err(e) && e is InvalidRepoId,
        RepoIdVerdict::BadChar => r matches Err(e) && e is InvalidRepoIdCharacters,
        RepoIdVerdict::TooLong => r matches Err(e) && e is RepoIdTooLong,
    }
}

fn all_id_chars(s: &str) -> (r: bool)
    ensures
        r == spec_all_id_chars(s@),
{
    let len = s.unicode_len();
    let mut i: usize = 0;
    while i < len
        invariant
            len == s@.len(),
            i <= len,
            forall|k: int| 0 <= k < i ==> spec_ok_id_char(#[trigger] s@[k]),
        decreases len - i,
    {
        let c = s.get_char(i);
        if !(char_is_alphanumeric(c) || c == '-' || c == '_') {
            return false;
        }
        i += 1;
    }
    true
}

/// Checks a repository id: a filesystem- and database-safe key of at most
/// 100 characters, drawn from letters, numbers, hyphens and underscores.
pub fn validate_repo_id(repo_id: &str) -> (r: Result<(), AppError>)
    ensures
        repo_id_verdict_matches(spec_validate_repo_id(repo_id@), r),
{
    if is_blank(repo_id) {
        return Err(AppError::EmptyRepoId);
    }
    if has_null(repo_id) {
        return Err(AppError::InvalidRepoId);
    }
    if !all_id_chars(repo_id) {
        return Err(AppError::InvalidRepoIdCharacters);
    }
    if repo_id.unicode_len() > 100 {
        return Err(AppError::RepoIdTooLong);
    }
    Ok(())
}

// ------------------------------------------------------------------
// Password
// ------------------------------------------------------------------

/// What the password validator decides.
pub enum PasswordVerdict {
    Accept,
    Empty,
    NullByte,
}

/// The decision of the password validator on `s`: anything nonempty without
/// an embedded null is allowed, since the password goes into the subprocess
/// environment, never onto a command line.
pub open spec fn spec_validate_password(s: Seq<char>) -> PasswordVerdict {
    if s.len() == 0 {
        PasswordVerdict::Empty
    } else if spec_has_null(s) {
        PasswordVerdict::NullByte
    } else {
        PasswordVerdict::Accept
    }
}

/// The error that each non-accepting password verdict turns into.
pub open spec fn password_verdict_matches(v: PasswordVerdict, r: Result<(), AppError>) -> bool {
    match v {
        PasswordVerdict::Accept => r is Ok,
        PasswordVerdict::Empty => r matches Err(e) && e is EmptyPassword,
        PasswordVerdict::NullByte => r matches Err(e) && e is InvalidPassword,
    }
}

/// Checks a repository password.
pub fn validate_password(password: &str) -> (r: Result<(), AppError>)
    ensures
        password_verdict_matches(spec_validate_password(password@), r),
{
    if password.unicode_len() == 0 {
        return Err(AppError::EmptyPassword);
    }
    if has_null(password) {
        return Err(AppError::InvalidPassword);
    }
    Ok(())
}


// ------------------------------------------------------------------
// Laws
// ------------------------------------------------------------------

/// A locator that holds a `..` path component, carries no embedded null,
/// and names no remote (no colon beyond a drive prefix) is always rejected
/// as path traversal, whatever else it holds.
pub proof fn lemma_local_traversal_always_rejected(s: Seq<char>)
    requires
        spec_has_dotdot_segment(s),
        !spec_has_null(s),
        !spec_remote_form(s),
    ensures
        spec_validate_repository(s) is Traversal,
{
    let i = choose|i: int| #[trigger] spec_dotdot_at(s, i);
    assert(s[i] == '.');
    assert(!is_space_char('.'));
    assert(!spec_blank(s));
}

/// A snapshot id is accepted exactly when its length lies in `[8, 64]` and
/// every character is an ASCII hexadecimal digit.
pub proof fn lemma_snapshot_id_acceptance(s: Seq<char>)
    ensures
        spec_validate_snapshot_id(s) is Accept <==> (8 <= s.len() <= 64 && spec_all_hex(s)),
{
    if 8 <= s.len() <= 64 && spec_all_hex(s) {
        assert(is_hex_digit_char(s[0]));
        assert(!is_space_char(s[0]));
        assert(!spec_blank(s));
        if spec_has_null(s) {
            let i = choose|i: int| 0 <= i < s.len() && s[i] == '\0';
            assert(is_hex_digit_char(s[i]));
            assert(false);
        }
    }
}

/// The target-path rules: a relative path is never accepted; an absolute,
/// traversal-free path whose parent was not found is rejected with exactly
/// that missing parent when it has two or more components; and such a path
/// is accepted when its parent exists or it sits directly under the root.
pub proof fn lemma_target_path_rules(s: Seq<char>, parent_exists: bool)
    ensures
        !spec_absolute(s) ==> !(spec_validate_target(s, parent_exists) is Accept),
        spec_absolute(s) && !spec_has_null(s) && !spec_has_dotdot_segment(s) && spec_parts(s).len()
            >= 2 && !parent_exists ==> (spec_validate_target(s, parent_exists)
            matches TargetVerdict::MissingParent(p) && p == spec_parent_dir(s)),
        spec_absolute(s) && !spec_has_null(s) && !spec_has_dotdot_segment(s) && (spec_parts(
            s,
        ).len() < 2 || parent_exists) ==> spec_validate_target(s, parent_exists) is Accept,
{
    if spec_absolute(s) {
        assert(s[0] == '/');
        assert(!is_space_char('/'));
        assert(!spec_blank(s));
    }
}

/// The include-path rules: four or more `..` occurrences are never
/// accepted, and at most three are, for a nonempty, null-free, relative
/// path.
pub proof fn lemma_include_path_rules(s: Seq<char>)
    ensures
        spec_count_matches(s, ".."@, 0) > 3 ==> !(spec_validate_include_path(s) is Accept),
        !spec_blank(s) && !spec_has_null(s) && spec_count_matches(s, ".."@, 0) <= 3
            && !spec_absolute(s) ==> spec_validate_include_path(s) is Accept,
{
}

} // verus!

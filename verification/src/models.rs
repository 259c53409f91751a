//! The typed records the tool's JSON responses parse into, and the parsers
//! themselves: a strict array parse for snapshot listings and a tolerant
//! line-by-line parse for tree listings, which keeps exactly the well-formed
//! records, in order, and silently drops every other line.

use vstd::prelude::*;

use crate::errors::AppError;
use crate::json::{
    json_get_list_len, json_get_list_str, json_get_str, json_get_u64, json_get_element,
    json_parse_array, spec_json_array_len, spec_json_element, spec_json_list_len,
    spec_json_list_str, spec_json_str_field, spec_json_u64_field,
};
use crate::text::{spec_lines, split_lines, str_eq};

verus! {

// ------------------------------------------------------------------
// Records and their views
// ------------------------------------------------------------------

/// One snapshot of a repository, as the tool reports it.
#[derive(Debug, Clone)]
pub struct Snapshot {
    pub id: String,
    pub short_id: String,
    pub time: String,
    pub hostname: String,
    pub paths: Vec<String>,
    pub tags: Option<Vec<String>>,
    pub username: String,
    pub tree: Option<String>,
    pub parent: Option<String>,
}

/// The mathematical value of a [`Snapshot`].
pub struct SnapshotV {
    pub id: Seq<char>,
    pub short_id: Seq<char>,
    pub time: Seq<char>,
    pub hostname: Seq<char>,
    pub paths: Seq<Seq<char>>,
    pub tags: Option<Seq<Seq<char>>>,
    pub username: Seq<char>,
    pub tree: Option<Seq<char>>,
    pub parent: Option<Seq<char>>,
}

impl View for Snapshot {
    type V = SnapshotV;

    open spec fn view(&self) -> SnapshotV {
        SnapshotV {
            id: self.id@,
            short_id: self.short_id@,
            time: self.time@,
            hostname: self.hostname@,
            paths: self.paths.deep_view(),
            tags: self.tags.deep_view(),
            username: self.username@,
            tree: self.tree.deep_view(),
            parent: self.parent.deep_view(),
        }
    }
}

impl DeepView for Snapshot {
    type V = SnapshotV;

    open spec fn deep_view(&self) -> SnapshotV {
        self.view()
    }
}

/// One entry of a snapshot's file tree, as the tool reports it.
#[derive(Debug, Clone)]
pub struct FileNode {
    pub name: String,
    pub path: String,
    pub node_type: String,
    pub size: Option<u64>,
    pub mtime: Option<String>,
}

/// The mathematical value of a [`FileNode`].
pub struct FileNodeV {
    pub name: Seq<char>,
    pub path: Seq<char>,
    pub node_type: Seq<char>,
    pub size: Option<u64>,
    pub mtime: Option<Seq<char>>,
}

impl View for FileNode {
    type V = FileNodeV;

    open spec fn view(&self) -> FileNodeV {
        FileNodeV {
            name: self.name@,
            path: self.path@,
            node_type: self.node_type@,
            size: self.size,
            mtime: self.mtime.deep_view(),
        }
    }
}

impl DeepView for FileNode {
    type V = FileNodeV;

    open spec fn deep_view(&self) -> FileNodeV {
        self.view()
    }
}

/// A snapshot together with its cached statistics, as the local cache keeps
/// them.
#[derive(Debug, Clone)]
pub struct SnapshotWithStats {
    pub snapshot: Snapshot,
    pub total_size: Option<u64>,
    pub total_file_count: Option<u64>,
}

/// Per-repository bookkeeping of the local cache.
#[derive(Debug, Clone)]
pub struct RepoMeta {
    pub repo_id: String,
    pub last_delta_check: i64,
    pub snapshot_count: i64,
}

// ------------------------------------------------------------------
// File-tree lines
// ------------------------------------------------------------------

/// The file-tree record a line of JSON text holds, if any: the three
/// required string fields, with size and modification time optional.
pub open spec fn spec_node_fields(line: Seq<char>) -> Option<FileNodeV> {
    match (
        spec_json_str_field(line, "name"@),
        spec_json_str_field(line, "path"@),
        spec_json_str_field(line, "type"@),
    ) {
        (Some(n), Some(p), Some(t)) => Some(
            (FileNodeV {
                name: n,
                path: p,
                node_type: t,
                size: spec_json_u64_field(line, "size"@),
                mtime: spec_json_str_field(line, "mtime"@),
            }),
        ),
        _ => None,
    }
}

/// The record a line yields under the chosen discipline: with
/// `require_marker` the line must carry `"struct_type": "node"`, as mixed
/// tree listings do, before its fields are read at all.
pub open spec fn spec_line_node(line: Seq<char>, require_marker: bool) -> Option<FileNodeV> {
    if require_marker && spec_json_str_field(line, "struct_type"@) != Some("node"@) {
        None
    } else {
        spec_node_fields(line)
    }
}

/// The records of a sequence of lines, in order, with every line that
/// yields no record dropped.
pub open spec fn spec_collect_nodes(lines: Seq<Seq<char>>, require_marker: bool) -> Seq<FileNodeV>
    decreases lines.len(),
{
    if lines.len() == 0 {
        Seq::empty()
    } else {
        match spec_line_node(lines[0], require_marker) {
            Some(n) => seq![n] + spec_collect_nodes(lines.drop_first(), require_marker),
            None => spec_collect_nodes(lines.drop_first(), require_marker),
        }
    }
}

/// Reads one line as a file-tree record, if it is one.
pub fn parse_file_node_line(line: &str, require_marker: bool) -> (r: Option<FileNode>)
    ensures
        (match r {
            Some(n) => spec_line_node(line@, require_marker) == Some(n@),
            None => spec_line_node(line@, require_marker) is None,
        }),
{
    if require_marker {
        match json_get_str(line, "struct_type") {
            Some(s) => {
                if !str_eq(s.as_str(), "node") {
                    return None;
                }
            },
            None => {
                return None;
            },
        }
    }
    let name = match json_get_str(line, "name") {
        Some(v) => v,
        None => {
            return None;
        },
    };
    let path = match json_get_str(line, "path") {
        Some(v) => v,
        None => {
            return None;
        },
    };
    let node_type = match json_get_str(line, "type") {
        Some(v) => v,
        None => {
            return None;
        },
    };
    let size = json_get_u64(line, "size");
    let mtime = json_get_str(line, "mtime");
    Some(FileNode { name, path, node_type, size, mtime })
}

/// Parses a line-delimited tree listing: splits the output into lines,
/// keeps exactly the lines that yield a record, in their original order,
/// and silently drops every line that is blank, malformed, or (when the
/// marker is required) not marked as a node record. A bad line never aborts
/// the batch.
pub fn collect_file_nodes(output: &str, require_marker: bool) -> (r: Vec<FileNode>)
    ensures
        r.deep_view() == spec_collect_nodes(spec_lines(output@), require_marker),
{
    let lines = split_lines(output);
    let ghost lv = lines.deep_view();
    let mut out: Vec<FileNode> = Vec::new();
    let mut i: usize = 0;
    proof {
        assert(lv.skip(0) =~= lv);
    }
    while i < lines.len()
        invariant
            lv == lines.deep_view(),
            lv.len() == lines@.len(),
            i <= lines@.len(),
            spec_collect_nodes(lv, require_marker) == out.deep_view() + spec_collect_nodes(
                lv.skip(i as int),
                require_marker,
            ),
        decreases lines@.len() - i,
    {
        let ghost prev = out.deep_view();
        proof {
            assert(lv.skip(i as int)[0] == lv[i as int]);
            assert(lv.skip(i as int).drop_first() =~= lv.skip(i as int + 1));
            assert(lines@[i as int].deep_view() == lv[i as int]);
        }
        match parse_file_node_line(lines[i].as_str(), require_marker) {
            Some(n) => {
                out.push(n);
                proof {
                    assert(out.deep_view() =~= prev.push(spec_line_node(
                        lv[i as int],
                        require_marker,
                    )->Some_0));
                    assert(prev + seq![
                        spec_line_node(lv[i as int], require_marker)->Some_0,
                    ] =~= out.deep_view());
                }
            },
            None => {},
        }
        i += 1;
    }
    proof {
        assert(lv.skip(lines@.len() as int) =~= Seq::<Seq<char>>::empty());
        assert(out.deep_view() + Seq::<FileNodeV>::empty() =~= out.deep_view());
    }
    out
}

/// Dropping a line that yields no record leaves the parsed batch unchanged.
pub proof fn lemma_collect_skips_bad_line(lines: Seq<Seq<char>>, i: int, require_marker: bool)
    requires
        0 <= i < lines.len(),
        spec_line_node(lines[i], require_marker) is None,
    ensures
        spec_collect_nodes(lines, require_marker) == spec_collect_nodes(
            lines.remove(i),
            require_marker,
        ),
    decreases lines.len(),
{
    if i == 0 {
        assert(lines.remove(0) =~= lines.drop_first());
    } else {
        lemma_collect_skips_bad_line(lines.drop_first(), i - 1, require_marker);
        assert(lines.remove(i).drop_first() =~= lines.drop_first().remove(i - 1));
        assert(lines.remove(i)[0] == lines[0]);
    }
}

/// A batch in which every line yields a record parses to exactly those
/// records, in order.
pub proof fn lemma_collect_all_good(lines: Seq<Seq<char>>, require_marker: bool)
    requires
        forall|j: int|
            0 <= j < lines.len() ==> #[trigger] spec_line_node(lines[j], require_marker) is Some,
    ensures
        spec_collect_nodes(lines, require_marker) == lines.map_values(
            |l: Seq<char>| spec_line_node(l, require_marker)->Some_0,
        ),
    decreases lines.len(),
{
    let f = |l: Seq<char>| spec_line_node(l, require_marker)->Some_0;
    if lines.len() == 0 {
        assert(spec_collect_nodes(lines, require_marker) =~= lines.map_values(f));
    } else {
        assert(spec_line_node(lines[0], require_marker) is Some);
        lemma_collect_all_good(lines.drop_first(), require_marker);
        assert(lines.map_values(f) =~= seq![f(lines[0])] + lines.drop_first().map_values(f));
    }
}

// ------------------------------------------------------------------
// Snapshot listings
// ------------------------------------------------------------------

/// The first `n` strings of the array field `key`, when every one of them
/// is present and is a string.
pub open spec fn spec_str_items(elem: Seq<char>, key: Seq<char>, n: int) -> Option<Seq<Seq<char>>>
    decreases n,
{
    if n <= 0 {
        Some(Seq::empty())
    } else {
        match (spec_str_items(elem, key, n - 1), spec_json_list_str(elem, key, (n - 1) as usize)) {
            (Some(pre), Some(s)) => Some(pre.push(s)),
            _ => None,
        }
    }
}

/// The whole string-array field `key` of `elem`, when it is an array whose
/// elements are all strings.
pub open spec fn spec_json_str_list(elem: Seq<char>, key: Seq<char>) -> Option<Seq<Seq<char>>> {
    match spec_json_list_len(elem, key) {
        Some(n) => spec_str_items(elem, key, n as int),
        None => None,
    }
}

/// An absent item keeps the whole list absent, however far it grows.
proof fn lemma_str_items_stay_none(elem: Seq<char>, key: Seq<char>, m: int, n: int)
    requires
        0 < m <= n,
        spec_str_items(elem, key, m) is None,
    ensures
        spec_str_items(elem, key, n) is None,
    decreases n - m,
{
    if m < n {
        lemma_str_items_stay_none(elem, key, m + 1, n);
    }
}

/// Reads the string-array field `key` of `elem`.
fn json_get_str_list(elem: &str, key: &str) -> (r: Option<Vec<String>>)
    ensures
        (match r {
            Some(v) => spec_json_str_list(elem@, key@) == Some(v.deep_view()),
            None => spec_json_str_list(elem@, key@) is None,
        }),
{
    let n = match json_get_list_len(elem, key) {
        Some(n) => n,
        None => {
            return None;
        },
    };
    let mut out: Vec<String> = Vec::new();
    let mut i: usize = 0;
    while i < n
        invariant
            i <= n,
            spec_json_list_len(elem@, key@) == Some(n),
            out@.len() == i,
            spec_str_items(elem@, key@, i as int) == Some(out.deep_view()),
        decreases n - i,
    {
        let ghost prev = out.deep_view();
        match json_get_list_str(elem, key, i) {
            Some(s) => {
                out.push(s);
                proof {
                    assert(out.deep_view() =~= prev.push(
                        spec_json_list_str(elem@, key@, i)->Some_0,
                    ));
                }
            },
            None => {
                proof {
                    assert(spec_str_items(elem@, key@, i as int + 1) is None);
                    if i as int + 1 <= n {
                        lemma_str_items_stay_none(elem@, key@, i as int + 1, n as int);
                    }
                }
                return None;
            },
        }
        i += 1;
    }
    Some(out)
}

/// The snapshot record a JSON element holds, if any: the five required
/// string fields and the required path list, with tags, tree and parent
/// optional.
pub open spec fn spec_snapshot_of(elem: Seq<char>) -> Option<SnapshotV> {
    match (
        spec_json_str_field(elem, "id"@),
        spec_json_str_field(elem, "short_id"@),
        spec_json_str_field(elem, "time"@),
        spec_json_str_field(elem, "hostname"@),
        spec_json_str_field(elem, "username"@),
        spec_json_str_list(elem, "paths"@),
    ) {
        (Some(id), Some(sid), Some(time), Some(host), Some(user), Some(paths)) => Some(
            (SnapshotV {
                id: id,
                short_id: sid,
                time: time,
                hostname: host,
                username: user,
                paths: paths,
                tags: spec_json_str_list(elem, "tags"@),
                tree: spec_json_str_field(elem, "tree"@),
                parent: spec_json_str_field(elem, "parent"@),
            }),
        ),
        _ => None,
    }
}

/// Reads one array element as a snapshot record, if it is one.
pub fn parse_snapshot_element(elem: &str) -> (r: Option<Snapshot>)
    ensures
        (match r {
            Some(s) => spec_snapshot_of(elem@) == Some(s@),
            None => spec_snapshot_of(elem@) is None,
        }),
{
    let id = match json_get_str(elem, "id") {
        Some(v) => v,
        None => {
            return None;
        },
    };
    let short_id = match json_get_str(elem, "short_id") {
        Some(v) => v,
        None => {
            return None;
        },
    };
    let time = match json_get_str(elem, "time") {
        Some(v) => v,
        None => {
            return None;
        },
    };
    let hostname = match json_get_str(elem, "hostname") {
        Some(v) => v,
        None => {
            return None;
        },
    };
    let username = match json_get_str(elem, "username") {
        Some(v) => v,
        None => {
            return None;
        },
    };
    let paths = match json_get_str_list(elem, "paths") {
        Some(v) => v,
        None => {
            return None;
        },
    };
    let tags = json_get_str_list(elem, "tags");
    let tree = json_get_str(elem, "tree");
    let parent = json_get_str(elem, "parent");
    Some(Snapshot { id, short_id, time, hostname, paths, tags, username, tree, parent })
}

/// The first `n` elements of the top-level array read as snapshot records,
/// when every element is present and is such a record.
pub open spec fn spec_snap_items(text: Seq<char>, n: int) -> Option<Seq<SnapshotV>>
    decreases n,
{
    if n <= 0 {
        Some(Seq::empty())
    } else {
        match (spec_snap_items(text, n - 1), spec_json_element(text, (n - 1) as usize)) {
            (Some(pre), Some(el)) => match spec_snapshot_of(el) {
                Some(s) => Some(pre.push(s)),
                None => None,
            },
            _ => None,
        }
    }
}

/// A bad element keeps the whole listing bad, however far it grows.
proof fn lemma_snap_items_stay_none(text: Seq<char>, m: int, n: int)
    requires
        0 < m <= n,
        spec_snap_items(text, m) is None,
    ensures
        spec_snap_items(text, n) is None,
    decreases n - m,
{
    if m < n {
        lemma_snap_items_stay_none(text, m + 1, n);
    }
}

/// The message a snapshot listing is rejected with when the response is a
/// well-formed array but some element is not a snapshot record.
pub open spec fn spec_bad_record_msg() -> Seq<char> {
    "snapshot record has an unexpected shape"@
}

/// How a whole snapshot listing parses: the records of the top-level array
/// in order, or the message of the first complaint — the parser's own when
/// the response is not a JSON array, a fixed one when an element is not a
/// snapshot record. Strict, unlike the tree listing: one bad element
/// rejects the batch.
pub open spec fn spec_parse_snapshot_list(text: Seq<char>) -> Result<Seq<SnapshotV>, Seq<char>> {
    match spec_json_array_len(text) {
        Result::Ok(n) => match spec_snap_items(text, n as int) {
            Some(snaps) => Ok(snaps),
            None => Err(spec_bad_record_msg()),
        },
        Result::Err(m) => Err(m),
    }
}

/// Parses a snapshot listing: the whole response must be a JSON array of
/// snapshot records.
pub fn parse_snapshot_list(output: &str) -> (r: Result<Vec<Snapshot>, AppError>)
    ensures
        (match spec_parse_snapshot_list(output@) {
            Result::Ok(snaps) => r matches Ok(v) && v.deep_view() == snaps,
            Result::Err(m) => r matches Err(e) && e matches AppError::SnapshotJsonParse(mm) && mm@
                == m,
        }),
{
    let n = match json_parse_array(output) {
        Ok(n) => n,
        Err(m) => {
            return Err(AppError::SnapshotJsonParse(m));
        },
    };
    let mut out: Vec<Snapshot> = Vec::new();
    let mut i: usize = 0;
    while i < n
        invariant
            i <= n,
            spec_json_array_len(output@) == Result::<usize, Seq<char>>::Ok(n),
            out@.len() == i,
            spec_snap_items(output@, i as int) == Some(out.deep_view()),
        decreases n - i,
    {
        let ghost prev = out.deep_view();
        let elem = match json_get_element(output, i) {
            Some(e) => e,
            None => {
                proof {
                    assert(spec_snap_items(output@, i as int + 1) is None);
                    if i as int + 1 <= n {
                        lemma_snap_items_stay_none(output@, i as int + 1, n as int);
                    }
                }
                return Err(AppError::SnapshotJsonParse(String::from_str(
                    "snapshot record has an unexpected shape",
                )));
            },
        };
        match parse_snapshot_element(elem.as_str()) {
            Some(s) => {
                out.push(s);
                proof {
                    assert(out.deep_view() =~= prev.push(
                        spec_snapshot_of(spec_json_element(output@, i)->Some_0)->Some_0,
                    ));
                }
            },
            None => {
                proof {
                    assert(spec_snap_items(output@, i as int + 1) is None);
                    if i as int + 1 <= n {
                        lemma_snap_items_stay_none(output@, i as int + 1, n as int);
                    }
                }
                return Err(AppError::SnapshotJsonParse(String::from_str(
                    "snapshot record has an unexpected shape",
                )));
            },
        }
        i += 1;
    }
    Ok(out)
}

} // verus!

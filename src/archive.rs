use vstd::prelude::*;

use crate::error::WikiError;
use crate::strings::{join, join_path};

verus! {

/// The archive formats that the extractor understands.
#[derive(Debug, Clone, Copy, PartialEq, Eq, Structural)]
pub enum ArchiveKind {
    Zip,
    TarXz,
}

pub open spec fn ends_with(s: Seq<char>, suffix: Seq<char>) -> bool {
    s.len() >= suffix.len() && s.skip(s.len() - suffix.len()) == suffix
}

/// The format named by a path's extension.
pub open spec fn kind_spec(path: Seq<char>) -> Option<ArchiveKind> {
    if ends_with(path, ".zip"@) {
        Some(ArchiveKind::Zip)
    } else if ends_with(path, ".tar.xz"@) {
        Some(ArchiveKind::TarXz)
    } else {
        None
    }
}

pub fn has_suffix(s: &str, suffix: &str) -> (r: bool)
    ensures
        r == ends_with(s@, suffix@),
{
    let n = s.unicode_len();
    let m = suffix.unicode_len();
    if n < m {
        return false;
    }
    let tail = s.substring_char(n - m, n);
    let mut i: usize = 0;
    while i < m
        invariant
            m == suffix@.len(),
            n == s@.len(),
            n >= m,
            tail@.len() == m,
            tail@ == s@.skip(n - m),
            0 <= i <= m,
            forall|j: int| 0 <= j < i ==> tail@[j] == suffix@[j],
        decreases m - i,
    {
        if tail.get_char(i) != suffix.get_char(i) {
            assert(s@.skip(n - m)[i as int] != suffix@[i as int]);
            return false;
        }
        i = i + 1;
    }
    assert(tail@ =~= suffix@);
    true
}

/// Dispatches on the extension; any other extension is refused, naming the path.
pub fn archive_kind(path: &str) -> (r: Result<ArchiveKind, WikiError>)
    ensures
        match r {
            Ok(k) => kind_spec(path@) == Some(k),
            Err(e) => kind_spec(path@) is None && (e matches WikiError::UnsupportedArchive(p)
                && p@ == path@),
        },
{
    if has_suffix(path, ".zip") {
        Ok(ArchiveKind::Zip)
    } else if has_suffix(path, ".tar.xz") {
        Ok(ArchiveKind::TarXz)
    } else {
        Err(WikiError::UnsupportedArchive(String::from_str(path)))
    }
}

/// An entry of an archive, under its sanitised name (no parent or root components).
#[derive(Debug, Clone)]
pub struct ArchiveEntry {
    pub name: String,
    pub is_dir: bool,
}

/// One write of a zip extraction: entry `index` goes to `out_path`, as a
/// directory when `is_dir`, else as a file whose parent is created first.
#[derive(Debug, Clone)]
pub struct ExtractOp {
    pub index: usize,
    pub out_path: String,
    pub is_dir: bool,
}

/// Index of the first entry whose sanitised name is not empty (an entry such as `./`
/// sanitises to nothing).
pub open spec fn root_index(entries: Seq<ArchiveEntry>) -> Option<int>
    decreases entries.len(),
{
    if entries.len() == 0 {
        None
    } else if entries[0].name@.len() > 0 {
        Some(0)
    } else {
        match root_index(entries.drop_first()) {
            Some(k) => Some(k + 1),
            None => None,
        }
    }
}

/// Some entry has a non-empty name.
pub open spec fn has_root(entries: Seq<ArchiveEntry>) -> bool {
    root_index(entries) is Some
}

/// The top-level name of an archive: that of its first named entry.
pub open spec fn root_of(entries: Seq<ArchiveEntry>) -> Seq<char> {
    entries[root_index(entries)->0].name@
}

pub proof fn lemma_root_index_bounds(entries: Seq<ArchiveEntry>)
    ensures
        root_index(entries) matches Some(k) ==> 0 <= k < entries.len() && entries[k].name@.len()
            > 0,
    decreases entries.len(),
{
    if entries.len() > 0 && entries[0].name@.len() == 0 {
        let t = entries.drop_first();
        lemma_root_index_bounds(t);
        if let Some(k) = root_index(t) {
            assert(t[k] == entries[k + 1]);
        }
    }
}

proof fn lemma_root_index(entries: Seq<ArchiveEntry>, k: int)
    requires
        0 <= k <= entries.len(),
        forall|j: int| 0 <= j < k ==> entries[j].name@.len() == 0,
    ensures
        k < entries.len() && entries[k].name@.len() > 0 ==> root_index(entries) == Some(k),
        k == entries.len() ==> root_index(entries) is None,
    decreases entries.len(),
{
    if entries.len() > 0 && k > 0 {
        let t = entries.drop_first();
        assert forall|j: int| 0 <= j < k - 1 implies t[j].name@.len() == 0 by {
            assert(t[j] == entries[j + 1]);
        }
        if k < entries.len() {
            assert(t[k - 1] == entries[k]);
        }
        lemma_root_index(t, k - 1);
    }
}

/// The root of an extracted archive: the name of its first named entry.
pub fn root_name(archive: &str, entries: &Vec<ArchiveEntry>) -> (r: Result<String, WikiError>)
    ensures
        match r {
            Ok(root) => has_root(entries@) && root@ == root_of(entries@) && root@.len() > 0,
            Err(e) => !has_root(entries@) && (e matches WikiError::EmptyArchive(p) && p@
                == archive@),
        },
{
    let mut i: usize = 0;
    while i < entries.len()
        invariant
            0 <= i <= entries@.len(),
            forall|j: int| 0 <= j < i ==> entries@[j].name@.len() == 0,
        decreases entries@.len() - i,
    {
        if entries[i].name.unicode_len() > 0 {
            proof {
                lemma_root_index(entries@, i as int);
            }
            return Ok(entries[i].name.clone());
        }
        i = i + 1;
    }
    proof {
        lemma_root_index(entries@, i as int);
    }
    Err(WikiError::EmptyArchive(String::from_str(archive)))
}

/// Output path and directory flag of each write of a zip extraction into `dest`.
pub open spec fn planned_writes(dest: Seq<char>, entries: Seq<ArchiveEntry>, root_exists: bool) -> Seq<(Seq<char>, bool)> {
    if root_exists {
        seq![]
    } else {
        Seq::new(entries.len(), |i: int| (join_path(dest, entries[i].name@), entries[i].is_dir))
    }
}

pub open spec fn op_views(ops: Seq<ExtractOp>) -> Seq<(Seq<char>, bool)> {
    ops.map_values(|o: ExtractOp| (o.out_path@, o.is_dir))
}

/// The writes of a zip extraction into `dest`: none when the root is already there,
/// else every entry in order.
pub fn plan_zip(dest: &str, entries: &Vec<ArchiveEntry>, root_exists: bool) -> (r: Vec<ExtractOp>)
    ensures
        op_views(r@) == planned_writes(dest@, entries@, root_exists),
        root_exists ==> r@.len() == 0,
        !root_exists ==> r@.len() == entries@.len(),
        !root_exists ==> forall|i: int|
            0 <= i < r@.len() ==> {
                &&& #[trigger] r@[i].index == i
                &&& r@[i].out_path@ == join_path(dest@, entries@[i].name@)
                &&& r@[i].is_dir == entries@[i].is_dir
            },
{
    let mut ops: Vec<ExtractOp> = Vec::new();
    if root_exists {
        assert(op_views(ops@) =~= planned_writes(dest@, entries@, root_exists));
        return ops;
    }
    let mut i: usize = 0;
    while i < entries.len()
        invariant
            0 <= i <= entries@.len(),
            ops@.len() == i,
            !root_exists,
            forall|k: int|
                0 <= k < i ==> {
                    &&& (#[trigger] ops@[k]).index == k
                    &&& ops@[k].out_path@ == join_path(dest@, entries@[k].name@)
                    &&& ops@[k].is_dir == entries@[k].is_dir
                },
        decreases entries@.len() - i,
    {
        let e = &entries[i];
        let out_path = join(dest, e.name.as_str());
        ops.push(ExtractOp { index: i, out_path, is_dir: e.is_dir });
        i = i + 1;
    }
    assert forall|k: int| 0 <= k < ops@.len() implies op_views(ops@)[k] == planned_writes(
        dest@,
        entries@,
        root_exists,
    )[k] by {
        assert(ops@[k].out_path@ == join_path(dest@, entries@[k].name@));
    }
    assert(op_views(ops@) =~= planned_writes(dest@, entries@, root_exists));
    ops
}

/// Extracting a zip whose root already exists under the destination writes nothing,
/// while the root it reports is the one a fresh extraction would create.
pub proof fn lemma_existing_root_writes_nothing(dest: Seq<char>, entries: Seq<ArchiveEntry>)
    requires
        has_root(entries),
    ensures
        planned_writes(dest, entries, true).len() == 0,
        planned_writes(dest, entries, false).len() == entries.len(),
        planned_writes(dest, entries, false)[root_index(entries)->0].0 == join_path(
            dest,
            root_of(entries),
        ),
{
    lemma_root_index_bounds(entries);
}

/// A path with an extension that the extractor does not know, such as `.rar`, is
/// refused before anything is extracted.
pub proof fn lemma_rar_is_unsupported(path: Seq<char>)
    requires
        ends_with(path, ".rar"@),
    ensures
        kind_spec(path) is None,
{
    reveal_strlit(".rar");
    reveal_strlit(".zip");
    reveal_strlit(".tar.xz");
    assert(path.last() == 'r') by {
        assert(path.skip(path.len() - 4)[3] == path.last());
    }
    if ends_with(path, ".zip"@) {
        assert(path.skip(path.len() - 4)[3] == path.last());
    }
    if ends_with(path, ".tar.xz"@) {
        assert(path.skip(path.len() - 7)[6] == path.last());
    }
}

} // verus!

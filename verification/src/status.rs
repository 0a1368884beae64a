//! Classification of per-file repository status entries into the four
//! badge categories, and the counting of a whole status list.
use vstd::prelude::*;

verus! {

/// The index and working-tree flags of one status entry, as the
/// repository reports them for a single file.
#[derive(Clone, Copy, PartialEq, Eq, Structural, Debug)]
pub struct StatusEntry {
    pub conflicted: bool,
    pub index_new: bool,
    pub index_modified: bool,
    pub index_deleted: bool,
    pub index_renamed: bool,
    pub index_typechange: bool,
    pub wt_new: bool,
    pub wt_modified: bool,
    pub wt_deleted: bool,
    pub wt_typechange: bool,
}

/// The per-category counters of one status pass.
#[derive(Clone, Copy, PartialEq, Eq, Structural, Debug)]
pub struct StatusCounts {
    pub staged: u32,
    pub modified: u32,
    pub untracked: u32,
    pub conflicted: u32,
}

/// A conflicted file counts toward no other category.
pub open spec fn is_conflicted(e: StatusEntry) -> bool {
    e.conflicted
}

/// Staged: any index-level change, unless the file is conflicted.
pub open spec fn is_staged(e: StatusEntry) -> bool {
    !e.conflicted && (e.index_new || e.index_modified || e.index_deleted || e.index_renamed
        || e.index_typechange)
}

/// Modified: any working-tree change to a tracked file, unless conflicted.
pub open spec fn is_modified(e: StatusEntry) -> bool {
    !e.conflicted && (e.wt_modified || e.wt_deleted || e.wt_typechange)
}

/// Untracked: new in the working tree, unless conflicted.
pub open spec fn is_untracked(e: StatusEntry) -> bool {
    !e.conflicted && e.wt_new
}

/// How many entries of `s` satisfy `p`.
pub open spec fn count_where(s: Seq<StatusEntry>, p: spec_fn(StatusEntry) -> bool) -> nat
    decreases s.len(),
{
    if s.len() == 0 {
        0
    } else {
        count_where(s.drop_last(), p) + (if p(s.last()) {
            1nat
        } else {
            0nat
        })
    }
}

pub proof fn lemma_count_where_le_len(s: Seq<StatusEntry>, p: spec_fn(StatusEntry) -> bool)
    ensures
        count_where(s, p) <= s.len(),
    decreases s.len(),
{
    if s.len() > 0 {
        lemma_count_where_le_len(s.drop_last(), p);
    }
}

/// No entry is ever counted both as conflicted and in another category.
pub proof fn lemma_conflicted_excludes_others(e: StatusEntry)
    ensures
        is_conflicted(e) ==> !is_staged(e) && !is_modified(e) && !is_untracked(e),
{
}

/// Counts the status entries per category: a conflicted entry counts only
/// as conflicted; any other entry may count toward staged, modified and
/// untracked independently.
pub fn count_statuses(entries: &Vec<StatusEntry>) -> (c: StatusCounts)
    requires
        entries@.len() <= u32::MAX,
    ensures
        c.staged == count_where(entries@, |e: StatusEntry| is_staged(e)),
        c.modified == count_where(entries@, |e: StatusEntry| is_modified(e)),
        c.untracked == count_where(entries@, |e: StatusEntry| is_untracked(e)),
        c.conflicted == count_where(entries@, |e: StatusEntry| is_conflicted(e)),
{
    let ghost ps = |e: StatusEntry| is_staged(e);
    let ghost pm = |e: StatusEntry| is_modified(e);
    let ghost pu = |e: StatusEntry| is_untracked(e);
    let ghost pc = |e: StatusEntry| is_conflicted(e);
    let mut staged: u32 = 0;
    let mut modified: u32 = 0;
    let mut untracked: u32 = 0;
    let mut conflicted: u32 = 0;
    let n = entries.len();
    let mut i: usize = 0;
    while i < n
        invariant
            n == entries@.len(),
            n <= u32::MAX,
            0 <= i <= n,
            staged == count_where(entries@.take(i as int), ps),
            modified == count_where(entries@.take(i as int), pm),
            untracked == count_where(entries@.take(i as int), pu),
            conflicted == count_where(entries@.take(i as int), pc),
            ps == (|e: StatusEntry| is_staged(e)),
            pm == (|e: StatusEntry| is_modified(e)),
            pu == (|e: StatusEntry| is_untracked(e)),
            pc == (|e: StatusEntry| is_conflicted(e)),
        decreases n - i,
    {
        proof {
            assert(entries@.take(i as int + 1).drop_last() =~= entries@.take(i as int));
            assert(entries@.take(i as int + 1).last() == entries@[i as int]);
            lemma_count_where_le_len(entries@.take(i as int), ps);
            lemma_count_where_le_len(entries@.take(i as int), pm);
            lemma_count_where_le_len(entries@.take(i as int), pu);
            lemma_count_where_le_len(entries@.take(i as int), pc);
        }
        let e = entries[i];
        if e.conflicted {
            conflicted = conflicted + 1;
        } else {
            if e.index_new || e.index_modified || e.index_deleted || e.index_renamed
                || e.index_typechange {
                staged = staged + 1;
            }
            if e.wt_modified || e.wt_deleted || e.wt_typechange {
                modified = modified + 1;
            }
            if e.wt_new {
                untracked = untracked + 1;
            }
        }
        i += 1;
    }
    proof {
        assert(entries@.take(n as int) =~= entries@);
    }
    StatusCounts { staged, modified, untracked, conflicted }
}

} // verus!

//! The diff summary model and its renderings.
//!
//! A `DiffSummary` is an ordered list of changed files (path and change
//! kind), optionally with overall statistics. The renderings here are pure:
//! the same summary always renders to the same text.

use vstd::prelude::*;
use crate::text::dec_str;
use crate::text::usize_to_string;
use crate::text::wrap_chars;
use crate::text::wrap_spec;

verus! {

/// How a changed file changed.
#[derive(Clone, Copy, Debug, PartialEq, Eq, Structural)]
pub enum ChangeKind {
    New,
    Modified,
    Deleted,
    Renamed,
    Untracked,
}

/// One changed file.
#[derive(Clone, Debug)]
pub struct FileChange {
    pub path: String,
    pub kind: ChangeKind,
}

/// Overall statistics of a diff.
#[derive(Clone, Copy, Debug, PartialEq, Eq, Structural)]
pub struct DiffStats {
    pub files_changed: usize,
    pub insertions: usize,
    pub deletions: usize,
}

/// An ordered sequence of changed-file descriptors, in diff order, plus
/// optional overall statistics. Immutable once produced.
#[derive(Clone, Debug)]
pub struct DiffSummary {
    pub files: Vec<FileChange>,
    pub stats: Option<DiffStats>,
}

impl DiffSummary {
    /// The paths of the changed files, in diff order.
    pub open spec fn spec_paths(&self) -> Seq<Seq<char>> {
        self.files@.map_values(|f: FileChange| f.path@)
    }
}

/// Each path followed by a newline, in order.
pub open spec fn joined_lines(paths: Seq<Seq<char>>) -> Seq<char>
    decreases paths.len(),
{
    if paths.len() == 0 {
        Seq::empty()
    } else {
        joined_lines(paths.drop_last()) + paths.last() + seq!['\n']
    }
}

/// The text form of a diff summary that is embedded into the completion
/// request: one line per changed file.
pub open spec fn spec_prompt_text(d: DiffSummary) -> Seq<char> {
    joined_lines(d.spec_paths())
}

/// The paths of the changed files, one entry per file, in diff order.
pub fn to_path_list(d: &DiffSummary) -> (r: Vec<String>)
    ensures
        r@.len() == d.files@.len(),
        forall|i: int| 0 <= i < r@.len() ==> r@[i]@ == d.files@[i].path@,
{
    let mut r: Vec<String> = Vec::new();
    let mut i: usize = 0;
    while i < d.files.len()
        invariant
            i <= d.files@.len(),
            r@.len() == i,
            forall|j: int| 0 <= j < i ==> r@[j]@ == d.files@[j].path@,
        decreases d.files@.len() - i,
    {
        r.push(d.files[i].path.clone());
        i += 1;
    }
    r
}

/// Renders a diff summary to the prompt body: one line per changed file.
/// Deterministic: the result is a function of the summary alone.
pub fn to_prompt_text(d: &DiffSummary) -> (r: String)
    ensures
        r@ == spec_prompt_text(*d),
{
    let mut r = String::new();
    let mut i: usize = 0;
    while i < d.files.len()
        invariant
            i <= d.files@.len(),
            r@ == joined_lines(d.spec_paths().take(i as int)),
        decreases d.files@.len() - i,
    {
        r.append(d.files[i].path.as_str());
        r.append("\n");
        proof {
            reveal_strlit("\n");
            assert("\n"@ =~= seq!['\n']);
            assert(d.spec_paths().take(i + 1).drop_last() =~= d.spec_paths().take(i as int));
            assert(d.spec_paths().take(i + 1).last() == d.files@[i as int].path@);
        }
        i += 1;
    }
    proof {
        assert(d.spec_paths().take(d.files@.len() as int) =~= d.spec_paths());
    }
    r
}

/// Rendering the prompt text is deterministic: two renderings of the same
/// diff summary are identical strings.
pub proof fn lemma_prompt_text_deterministic(d: DiffSummary, r1: Seq<char>, r2: Seq<char>)
    requires
        r1 == spec_prompt_text(d),
        r2 == spec_prompt_text(d),
    ensures
        r1 == r2,
{
}

/// The default column width of the statistics block.
pub const DEFAULT_STATS_WIDTH: usize = 80;

/// The one-line statistics text, before width truncation.
pub open spec fn spec_stats_line(s: DiffStats) -> Seq<char> {
    dec_str(s.files_changed as nat) + " files changed, "@ + dec_str(s.insertions as nat)
        + " insertions(+), "@ + dec_str(s.deletions as nat) + " deletions(-)"@
}

/// The statistics block of a summary: the statistics line wrapped to the
/// given column width, or empty where the summary carries no statistics.
pub open spec fn spec_stats_text(d: DiffSummary, w: nat) -> Seq<char> {
    match d.stats {
        Some(s) => wrap_spec(spec_stats_line(s), w),
        None => Seq::empty(),
    }
}

/// Renders the statistics block, wrapped to `width` columns.
pub fn to_stats(d: &DiffSummary, width: usize) -> (r: String)
    ensures
        r@ == spec_stats_text(*d, width as nat),
{
    match &d.stats {
        Some(s) => {
            let mut line = usize_to_string(s.files_changed);
            line.append(" files changed, ");
            let ins = usize_to_string(s.insertions);
            line.append(ins.as_str());
            line.append(" insertions(+), ");
            let del = usize_to_string(s.deletions);
            line.append(del.as_str());
            line.append(" deletions(-)");
            wrap_chars(line.as_str(), width)
        },
        None => String::new(),
    }
}

} // verus!

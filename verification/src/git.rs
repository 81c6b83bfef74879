//! The repository accessor and the commit writer.
//!
//! The version-control engine (the `git2` crate) is a black box: each call
//! into it stands behind a small trusted wrapper, and everything a wrapper
//! hands back flows through verified code. A computed diff is treated as a
//! collection whose entries `diff_entries` names; the summarizer walks it
//! entry by entry and builds the crate's own `DiffSummary`.

use vstd::prelude::*;
use crate::diff::ChangeKind;
use crate::diff::DiffStats;
use crate::diff::DiffSummary;
use crate::diff::FileChange;
use crate::diff::to_prompt_text;
use crate::errors::ErrorKind;
use crate::errors::MyError;

verus! {

#[verifier::external_type_specification]
#[verifier::external_body]
pub struct ExRepository(git2::Repository);

#[verifier::external_type_specification]
#[verifier::external_body]
pub struct ExGitError(git2::Error);

#[verifier::external_type_specification]
#[verifier::external_body]
pub struct ExOid(git2::Oid);

#[verifier::external_type_specification]
#[verifier::external_body]
pub struct ExReference<'a>(git2::Reference<'a>);

#[verifier::external_type_specification]
#[verifier::external_body]
pub struct ExCommit<'a>(git2::Commit<'a>);

#[verifier::external_type_specification]
#[verifier::external_body]
pub struct ExTree<'a>(git2::Tree<'a>);

#[verifier::external_type_specification]
#[verifier::external_body]
pub struct ExIndex(git2::Index);

#[verifier::external_type_specification]
#[verifier::external_body]
pub struct ExDiff<'a>(git2::Diff<'a>);

#[verifier::external_type_specification]
#[verifier::external_body]
pub struct ExSignature<'a>(git2::Signature<'a>);

/// What a computed diff holds: its ordered entries, each a path and a change
/// kind. A function of the diff value alone.
pub uninterp spec fn diff_entries(d: git2::Diff) -> Seq<(Seq<char>, ChangeKind)>;

/// Relies on git2::Repository::open: opens the repository containing `path`.
#[verifier::external_body]
fn repo_open(path: &str) -> Result<git2::Repository, git2::Error> {
    git2::Repository::open(path)
}

/// Relies on git2::Error::message: the text of an engine error.
#[verifier::external_body]
fn git_error_message(e: &git2::Error) -> String {
    e.message().to_string()
}

/// Relies on git2::Repository::head: the reference HEAD points at.
#[verifier::external_body]
fn repo_head<'a>(repo: &'a git2::Repository) -> Result<git2::Reference<'a>, git2::Error> {
    repo.head()
}

/// Relies on git2::Reference::peel_to_commit: the commit behind a reference.
#[verifier::external_body]
fn reference_peel_to_commit<'a>(rf: &git2::Reference<'a>) -> Result<
    git2::Commit<'a>,
    git2::Error,
> {
    rf.peel_to_commit()
}

/// Relies on git2::Reference::peel_to_tree: the tree behind a reference.
#[verifier::external_body]
fn reference_peel_to_tree<'a>(rf: &git2::Reference<'a>) -> Result<git2::Tree<'a>, git2::Error> {
    rf.peel_to_tree()
}

/// Relies on git2::Reference::target: the object id a direct reference
/// points at, or nothing for a symbolic or unborn reference.
#[verifier::external_body]
fn reference_target(rf: &git2::Reference<'_>) -> Option<git2::Oid> {
    rf.target()
}

/// Relies on git2::Commit::tree: the tree of a commit.
#[verifier::external_body]
fn commit_tree<'a>(c: &git2::Commit<'a>) -> Result<git2::Tree<'a>, git2::Error> {
    c.tree()
}

/// Relies on git2::Repository::index: the repository's index.
#[verifier::external_body]
fn repo_index(repo: &git2::Repository) -> Result<git2::Index, git2::Error> {
    repo.index()
}

/// Relies on git2::Index::write_tree: writes the index as a tree object and
/// returns its id.
#[verifier::external_body]
fn index_write_tree(idx: &mut git2::Index) -> Result<git2::Oid, git2::Error> {
    idx.write_tree()
}

/// Relies on git2::Repository::find_tree: looks a tree object up by id.
#[verifier::external_body]
fn repo_find_tree<'a>(repo: &'a git2::Repository, oid: git2::Oid) -> Result<
    git2::Tree<'a>,
    git2::Error,
> {
    repo.find_tree(oid)
}

/// Relies on git2::Repository::find_commit: looks a commit up by id.
#[verifier::external_body]
fn repo_find_commit<'a>(repo: &'a git2::Repository, oid: git2::Oid) -> Result<
    git2::Commit<'a>,
    git2::Error,
> {
    repo.find_commit(oid)
}

/// Relies on git2::Signature::now: an identity stamped with the current time.
#[verifier::external_body]
fn signature_now(name: &str, email: &str) -> Result<git2::Signature<'static>, git2::Error> {
    git2::Signature::now(name, email)
}

/// Relies on git2::Repository::commit: writes a commit with the given tree,
/// message and sole parent, author and committer alike, and advances HEAD.
#[verifier::external_body]
fn repo_commit_head(
    repo: &git2::Repository,
    sig: &git2::Signature<'_>,
    message: &str,
    tree: &git2::Tree<'_>,
    parent: &git2::Commit<'_>,
) -> Result<git2::Oid, git2::Error> {
    repo.commit(Some("HEAD"), sig, sig, message, tree, &[parent])
}

/// Relies on git2::Repository::diff_tree_to_index: the staged changes, a
/// diff from `old_tree` to the index.
#[verifier::external_body]
fn diff_tree_to_index<'a>(
    repo: &'a git2::Repository,
    old_tree: &git2::Tree<'_>,
    index: &git2::Index,
) -> Result<git2::Diff<'a>, git2::Error> {
    repo.diff_tree_to_index(Some(old_tree), Some(index), None)
}

/// Relies on git2::Repository::diff_tree_to_workdir_with_index: all
/// outstanding changes, staged and unstaged, against `old_tree`.
#[verifier::external_body]
fn diff_tree_to_workdir_with_index<'a>(
    repo: &'a git2::Repository,
    old_tree: &git2::Tree<'_>,
) -> Result<git2::Diff<'a>, git2::Error> {
    repo.diff_tree_to_workdir_with_index(Some(old_tree), None)
}

/// Relies on git2::Diff::find_similar: merges matching added and deleted
/// pairs of a diff into renamed entries.
#[verifier::external_body]
fn diff_find_similar(diff: &mut git2::Diff<'_>) -> Result<(), git2::Error> {
    diff.find_similar(None)
}

/// Relies on git2::Diff::deltas: how many entries the diff holds.
#[verifier::external_body]
fn diff_len(diff: &git2::Diff<'_>) -> (n: usize)
    ensures
        n == diff_entries(*diff).len(),
{
    diff.deltas().len()
}

/// Relies on git2::Diff::get_delta: hands entry `i` out as a plain value,
/// the new file's path and the delta's change kind.
#[verifier::external_body]
fn diff_entry_at(diff: &git2::Diff<'_>, i: usize) -> (e: (String, ChangeKind))
    requires
        i < diff_entries(*diff).len(),
    ensures
        e.0@ == diff_entries(*diff)[i as int].0,
        e.1 == diff_entries(*diff)[i as int].1,
{
    let d = diff.get_delta(i).unwrap();
    let path = d.new_file().path().map(|p| p.to_string_lossy().into_owned()).unwrap_or_default();
    let kind = match d.status() {
        git2::Delta::Added | git2::Delta::Copied => ChangeKind::New,
        git2::Delta::Deleted => ChangeKind::Deleted,
        git2::Delta::Renamed => ChangeKind::Renamed,
        git2::Delta::Untracked | git2::Delta::Ignored => ChangeKind::Untracked,
        _ => ChangeKind::Modified,
    };
    (path, kind)
}

/// Relies on git2::Diff::stats: the diff's overall counters.
#[verifier::external_body]
fn diff_stats(diff: &git2::Diff<'_>) -> Result<DiffStats, git2::Error> {
    let s = diff.stats()?;
    Ok(DiffStats { files_changed: s.files_changed(), insertions: s.insertions(), deletions: s.deletions() })
}

fn repo_error(e: &git2::Error) -> (r: MyError)
    ensures
        r.spec_kind() == ErrorKind::Repository,
{
    MyError::RepositoryError(git_error_message(e))
}

/// Opens the repository at `path`. Any inability to open the store is a
/// repository error.
pub fn open_repository(path: &str) -> (r: Result<git2::Repository, MyError>)
    ensures
        match r {
            Ok(_) => true,
            Err(e) => e.spec_kind() == ErrorKind::Repository,
        },
{
    match repo_open(path) {
        Ok(repo) => Ok(repo),
        Err(e) => Err(repo_error(&e)),
    }
}

/// Builds the crate's own summary of a computed diff: one `FileChange` per
/// entry, in diff order, plus the overall counters where the engine reports
/// them.
pub fn summarize_diff(diff: &git2::Diff<'_>) -> (r: DiffSummary)
    ensures
        r.files@.len() == diff_entries(*diff).len(),
        forall|i: int|
            0 <= i < r.files@.len() ==> r.files@[i].path@ == diff_entries(*diff)[i].0
                && r.files@[i].kind == diff_entries(*diff)[i].1,
{
    let n = diff_len(diff);
    let mut files: Vec<FileChange> = Vec::new();
    let mut i: usize = 0;
    while i < n
        invariant
            i <= n,
            n == diff_entries(*diff).len(),
            files@.len() == i,
            forall|j: int|
                0 <= j < i ==> files@[j].path@ == diff_entries(*diff)[j].0 && files@[j].kind
                    == diff_entries(*diff)[j].1,
        decreases n - i,
    {
        let e = diff_entry_at(diff, i);
        files.push(FileChange { path: e.0, kind: e.1 });
        i += 1;
    }
    let stats = match diff_stats(diff) {
        Ok(s) => Some(s),
        Err(_) => None,
    };
    DiffSummary { files, stats }
}

/// The staged changes: a diff from HEAD's tree to the index, with matching
/// add and delete pairs merged into renames. Any failure to resolve HEAD,
/// read the index or compute the diff is a repository error.
pub fn get_diff_after_add<'a>(repo: &'a git2::Repository) -> (r: Result<git2::Diff<'a>, MyError>)
    ensures
        match r {
            Ok(_) => true,
            Err(e) => e.spec_kind() == ErrorKind::Repository,
        },
{
    let head = match repo_head(repo) {
        Ok(h) => h,
        Err(e) => return Err(repo_error(&e)),
    };
    let head_commit = match reference_peel_to_commit(&head) {
        Ok(c) => c,
        Err(e) => return Err(repo_error(&e)),
    };
    let head_tree = match commit_tree(&head_commit) {
        Ok(t) => t,
        Err(e) => return Err(repo_error(&e)),
    };
    let index = match repo_index(repo) {
        Ok(i) => i,
        Err(e) => return Err(repo_error(&e)),
    };
    let mut diff = match diff_tree_to_index(repo, &head_tree, &index) {
        Ok(d) => d,
        Err(e) => return Err(repo_error(&e)),
    };
    match diff_find_similar(&mut diff) {
        Ok(_) => Ok(diff),
        Err(e) => Err(repo_error(&e)),
    }
}

/// The staged changes as a summary.
pub fn get_staged_summary(repo: &git2::Repository) -> (r: Result<DiffSummary, MyError>)
    ensures
        match r {
            Ok(_) => true,
            Err(e) => e.spec_kind() == ErrorKind::Repository,
        },
{
    match get_diff_after_add(repo) {
        Ok(diff) => Ok(summarize_diff(&diff)),
        Err(e) => Err(e),
    }
}

/// The descriptive listing of the staged changes: each changed path with its
/// change kind, in diff order.
pub fn status(repo: &git2::Repository) -> (r: Result<Vec<FileChange>, MyError>)
    ensures
        match r {
            Ok(_) => true,
            Err(e) => e.spec_kind() == ErrorKind::Repository,
        },
{
    match get_staged_summary(repo) {
        Ok(summary) => Ok(summary.files),
        Err(e) => Err(e),
    }
}

/// All outstanding changes, staged and unstaged, rendered as the prompt
/// body: one line per changed file. Any engine failure is a repository
/// error.
pub fn get_diff(repo: &git2::Repository) -> (r: Result<String, MyError>)
    ensures
        match r {
            Ok(_) => true,
            Err(e) => e.spec_kind() == ErrorKind::Repository,
        },
{
    let head = match repo_head(repo) {
        Ok(h) => h,
        Err(e) => return Err(repo_error(&e)),
    };
    let tree = match reference_peel_to_tree(&head) {
        Ok(t) => t,
        Err(e) => return Err(repo_error(&e)),
    };
    let diff = match diff_tree_to_workdir_with_index(repo, &tree) {
        Ok(d) => d,
        Err(e) => return Err(repo_error(&e)),
    };
    let summary = summarize_diff(&diff);
    Ok(to_prompt_text(&summary))
}

/// The result of a successful commit. Never mutated after creation.
#[derive(Clone, Debug)]
pub struct CommitRecord {
    /// Hex object id of the new commit.
    pub id: String,
    /// Hex object id of the sole parent, the prior HEAD commit.
    pub parent_id: String,
    pub message: String,
    pub author_name: String,
    pub author_email: String,
}

/// The hex rendering of an object id: a function of the id's bytes alone.
pub uninterp spec fn oid_hex_of(o: git2::Oid) -> Seq<char>;

/// Relies on git2::Oid's hex rendering, which depends on the id alone.
#[verifier::external_body]
fn oid_hex(oid: &git2::Oid) -> (r: String)
    ensures
        r@ == oid_hex_of(*oid),
{
    format!("{}", oid)
}

/// Writes the current index as a tree, creates a commit carrying `message`
/// with that tree and HEAD's commit as sole parent, and advances HEAD to it.
/// A repository whose HEAD does not resolve to an existing commit is a
/// repository error, and the reference is left unmoved: there is no support
/// for creating a root commit.
pub fn create_commit(
    repo: &git2::Repository,
    message: &str,
    author_name: &str,
    author_email: &str,
) -> (r: Result<CommitRecord, MyError>)
    requires
        message@.len() > 0,
    ensures
        match r {
            Ok(rec) => rec.message@ == message@ && rec.author_name@ == author_name@
                && rec.author_email@ == author_email@ && (exists|a: git2::Oid|
                rec.id@ == oid_hex_of(a)) && (exists|b: git2::Oid|
                rec.parent_id@ == oid_hex_of(b)),
            Err(e) => e.spec_kind() == ErrorKind::Repository,
        },
{
    let sig = match signature_now(author_name, author_email) {
        Ok(s) => s,
        Err(e) => return Err(repo_error(&e)),
    };
    let mut index = match repo_index(repo) {
        Ok(i) => i,
        Err(e) => return Err(repo_error(&e)),
    };
    let tree_oid = match index_write_tree(&mut index) {
        Ok(o) => o,
        Err(e) => return Err(repo_error(&e)),
    };
    let tree = match repo_find_tree(repo, tree_oid) {
        Ok(t) => t,
        Err(e) => return Err(repo_error(&e)),
    };
    let head = match repo_head(repo) {
        Ok(h) => h,
        Err(e) => return Err(repo_error(&e)),
    };
    let parent_oid = match reference_target(&head) {
        Some(o) => o,
        None => return Err(
            MyError::RepositoryError("HEAD does not point at an existing commit".to_owned()),
        ),
    };
    let parent = match repo_find_commit(repo, parent_oid) {
        Ok(c) => c,
        Err(e) => return Err(repo_error(&e)),
    };
    let new_oid = match repo_commit_head(repo, &sig, message, &tree, &parent) {
        Ok(o) => o,
        Err(e) => return Err(repo_error(&e)),
    };
    Ok(
        CommitRecord {
            id: oid_hex(&new_oid),
            parent_id: oid_hex(&parent_oid),
            message: message.to_owned(),
            author_name: author_name.to_owned(),
            author_email: author_email.to_owned(),
        },
    )
}

} // verus!

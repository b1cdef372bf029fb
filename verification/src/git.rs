//! Git repository state, read through `git2` and reduced to what the prompt shows.

use crate::error::Error;
use crate::text::{has_prefix, short_id, shortened, starts_with};
use git2::Error as GitError;
use std::path::Path;
use vstd::prelude::*;
use vstd::string::StrSliceExecFns;
use vstd::string::StringExecFns;

verus! {

/// A repository handle of `git2`.
#[verifier::external_type_specification]
#[verifier::external_body]
pub struct ExRepository(git2::Repository);

/// A reference of `git2`, borrowed from its repository.
#[verifier::external_type_specification]
#[verifier::external_body]
pub struct ExReference<'repo>(git2::Reference<'repo>);

/// A branch of `git2`, borrowed from its repository.
#[verifier::external_type_specification]
#[verifier::external_body]
pub struct ExBranch<'repo>(git2::Branch<'repo>);

/// An object id of `git2`.
#[verifier::external_type_specification]
#[verifier::external_body]
pub struct ExOid(git2::Oid);

/// The error type of `git2`.
#[verifier::external_type_specification]
#[verifier::external_body]
pub struct ExGitError(GitError);

/// The two kinds of branch that `git2` tells apart.
#[verifier::external_type_specification]
pub struct ExBranchType(git2::BranchType);

/// A filesystem path of std.
#[verifier::external_type_specification]
#[verifier::external_body]
pub struct ExPath(Path);

/// Git repository status info.
#[derive(Debug)]
pub struct GitInfo {
    /// Branch name (`None` if detached).
    pub branch: Option<String>,
    /// Short commit hash.
    pub head_short: String,
    /// Count of staged files.
    pub staged: usize,
    /// Count of modified (unstaged) files.
    pub modified: usize,
    /// Count of untracked files.
    pub untracked: usize,
    /// Count of deleted files.
    pub deleted: usize,
    /// Count of conflicted files.
    pub conflicted: usize,
    /// Commits ahead of upstream.
    pub ahead: usize,
    /// Commits behind upstream.
    pub behind: usize,
}

/// What a [`GitInfo`] holds, as mathematical values.
pub struct GitStatus {
    pub branch: Option<Seq<char>>,
    pub head_short: Seq<char>,
    pub staged: nat,
    pub modified: nat,
    pub untracked: nat,
    pub deleted: nat,
    pub conflicted: nat,
    pub ahead: nat,
    pub behind: nat,
}

impl View for GitInfo {
    type V = GitStatus;

    open spec fn view(&self) -> GitStatus {
        GitStatus {
            branch: self.branch.deep_view(),
            head_short: self.head_short@,
            staged: self.staged as nat,
            modified: self.modified as nat,
            untracked: self.untracked as nat,
            deleted: self.deleted as nat,
            conflicted: self.conflicted as nat,
            ahead: self.ahead as nat,
            behind: self.behind as nat,
        }
    }
}

/// Status bit of a file that is new in the index.
pub const STATUS_INDEX_NEW: u32 = 0x0001;

/// Status bit of a file that is modified in the index.
pub const STATUS_INDEX_MODIFIED: u32 = 0x0002;

/// Status bit of a file that is deleted in the index.
pub const STATUS_INDEX_DELETED: u32 = 0x0004;

/// Status bit of a file that is renamed in the index.
pub const STATUS_INDEX_RENAMED: u32 = 0x0008;

/// Status bit of a file whose type changed in the index.
pub const STATUS_INDEX_TYPECHANGE: u32 = 0x0010;

/// Status bit of a file that is new in the working tree.
pub const STATUS_WT_NEW: u32 = 0x0080;

/// Status bit of a file that is modified in the working tree.
pub const STATUS_WT_MODIFIED: u32 = 0x0100;

/// Status bit of a file that is deleted in the working tree.
pub const STATUS_WT_DELETED: u32 = 0x0200;

/// Status bit of a file whose type changed in the working tree.
pub const STATUS_WT_TYPECHANGE: u32 = 0x0400;

/// Status bit of a file with a merge conflict.
pub const STATUS_CONFLICTED: u32 = 0x8000;

/// The classes of file a status line can report.
#[derive(Debug, Clone, Copy, PartialEq, Eq)]
pub enum FileState {
    Conflicted,
    Staged,
    Modified,
    Untracked,
    Deleted,
}

/// Whether a file with the status bits `bits` counts towards `state`.
/// A conflicted file counts as conflicted and as nothing else.
pub open spec fn has_state(bits: u32, state: FileState) -> bool {
    let conflicted = bits & STATUS_CONFLICTED != 0;
    match state {
        FileState::Conflicted => conflicted,
        FileState::Staged => !conflicted && bits & (STATUS_INDEX_NEW | STATUS_INDEX_MODIFIED
            | STATUS_INDEX_DELETED | STATUS_INDEX_RENAMED | STATUS_INDEX_TYPECHANGE) != 0,
        FileState::Modified => !conflicted && bits & (STATUS_WT_MODIFIED | STATUS_WT_TYPECHANGE)
            != 0,
        FileState::Untracked => !conflicted && bits & STATUS_WT_NEW != 0,
        FileState::Deleted => !conflicted && bits & STATUS_WT_DELETED != 0,
    }
}

/// How many entries of `entries` count towards `state`.
pub open spec fn count_state(entries: Seq<u32>, state: FileState) -> nat
    decreases entries.len(),
{
    if entries.len() == 0 {
        0
    } else {
        count_state(entries.drop_last(), state) + if has_state(entries.last(), state) {
            1nat
        } else {
            0nat
        }
    }
}

/// File counts of a working tree, by class.
#[derive(Debug, Clone, Copy)]
pub struct StatusCounts {
    pub staged: usize,
    pub modified: usize,
    pub untracked: usize,
    pub deleted: usize,
    pub conflicted: usize,
}

/// Counts the entries of a status listing by class. Each entry is the
/// status bit set of one file.
pub fn tally(entries: &Vec<u32>) -> (r: StatusCounts)
    ensures
        r.conflicted == count_state(entries@, FileState::Conflicted),
        r.staged == count_state(entries@, FileState::Staged),
        r.modified == count_state(entries@, FileState::Modified),
        r.untracked == count_state(entries@, FileState::Untracked),
        r.deleted == count_state(entries@, FileState::Deleted),
{
    let mut staged: usize = 0;
    let mut modified: usize = 0;
    let mut untracked: usize = 0;
    let mut deleted: usize = 0;
    let mut conflicted: usize = 0;
    let mut i: usize = 0;
    while i < entries.len()
        invariant
            i <= entries.len(),
            conflicted == count_state(entries@.take(i as int), FileState::Conflicted),
            staged == count_state(entries@.take(i as int), FileState::Staged),
            modified == count_state(entries@.take(i as int), FileState::Modified),
            untracked == count_state(entries@.take(i as int), FileState::Untracked),
            deleted == count_state(entries@.take(i as int), FileState::Deleted),
            conflicted <= i,
            staged <= i,
            modified <= i,
            untracked <= i,
            deleted <= i,
        decreases entries.len() - i,
    {
        let bits: u32 = entries[i];
        proof {
            let next = entries@.take(i + 1);
            assert(next.drop_last() =~= entries@.take(i as int));
            assert(next.last() == bits);
        }
        if bits & STATUS_CONFLICTED != 0 {
            conflicted = conflicted + 1;
        } else {
            if bits & (STATUS_INDEX_NEW | STATUS_INDEX_MODIFIED | STATUS_INDEX_DELETED
                | STATUS_INDEX_RENAMED | STATUS_INDEX_TYPECHANGE) != 0 {
                staged = staged + 1;
            }
            if bits & (STATUS_WT_MODIFIED | STATUS_WT_TYPECHANGE) != 0 {
                modified = modified + 1;
            }
            if bits & STATUS_WT_DELETED != 0 {
                deleted = deleted + 1;
            }
            if bits & STATUS_WT_NEW != 0 {
                untracked = untracked + 1;
            }
        }
        i = i + 1;
    }
    proof {
        assert(entries@.take(entries.len() as int) =~= entries@);
    }
    StatusCounts { staged, modified, untracked, deleted, conflicted }
}

/// The prefix under which local branches are stored.
pub const BRANCH_REF_PREFIX: &'static str = "refs/heads/";

/// The short id shown for a repository that has no commit yet.
pub const UNBORN_ID: &'static str = "empty";

/// The branch that a symbolic target names: what follows `refs/heads/`,
/// when the target begins with it.
pub open spec fn branch_named_by(target: Option<Seq<char>>) -> Option<Seq<char>> {
    match target {
        Some(t) => if starts_with(t, BRANCH_REF_PREFIX@) {
            Some(t.skip(BRANCH_REF_PREFIX@.len() as int))
        } else {
            None
        },
        None => None,
    }
}

/// Derives the branch name from the target of a symbolic `HEAD`.
pub fn branch_of_target(target: Option<String>) -> (r: Option<String>)
    ensures
        r.deep_view() == branch_named_by(target.deep_view()),
{
    match target {
        None => None,
        Some(t) => {
            let text = t.as_str();
            if has_prefix(text, BRANCH_REF_PREFIX) {
                let n = BRANCH_REF_PREFIX.unicode_len();
                let len = text.unicode_len();
                proof {
                    assert(text@.subrange(n as int, len as int) =~= text@.skip(n as int));
                }
                Some(String::from_str(text.substring_char(n, len)))
            } else {
                None
            }
        },
    }
}

/// The status of a repository whose `HEAD` points at no commit yet:
/// the branch is read off the symbolic target, the id is a placeholder,
/// and nothing is ahead or behind.
pub fn unborn_info(target: Option<String>, counts: StatusCounts) -> (r: GitInfo)
    ensures
        r@ == (GitStatus {
            branch: branch_named_by(target.deep_view()),
            head_short: UNBORN_ID@,
            staged: counts.staged as nat,
            modified: counts.modified as nat,
            untracked: counts.untracked as nat,
            deleted: counts.deleted as nat,
            conflicted: counts.conflicted as nat,
            ahead: 0,
            behind: 0,
        }),
{
    GitInfo {
        branch: branch_of_target(target),
        head_short: String::from_str(UNBORN_ID),
        staged: counts.staged,
        modified: counts.modified,
        untracked: counts.untracked,
        deleted: counts.deleted,
        conflicted: counts.conflicted,
        ahead: 0,
        behind: 0,
    }
}

/// The status of a repository whose `HEAD` points at a commit. A detached
/// `HEAD` has no branch; without upstream counts nothing is ahead or behind.
pub fn born_info(
    detached: bool,
    shorthand: Option<String>,
    full_hash: &str,
    id_length: usize,
    counts: StatusCounts,
    upstream: Option<(usize, usize)>,
) -> (r: GitInfo)
    ensures
        r@ == (GitStatus {
            branch: if detached { None } else { shorthand.deep_view() },
            head_short: shortened(full_hash@, id_length as nat),
            staged: counts.staged as nat,
            modified: counts.modified as nat,
            untracked: counts.untracked as nat,
            deleted: counts.deleted as nat,
            conflicted: counts.conflicted as nat,
            ahead: match upstream { Some(p) => p.0 as nat, None => 0 },
            behind: match upstream { Some(p) => p.1 as nat, None => 0 },
        }),
{
    let branch = if detached { None } else { shorthand };
    let (ahead, behind) = match upstream {
        Some(p) => p,
        None => (0, 0),
    };
    GitInfo {
        branch,
        head_short: short_id(full_hash, id_length),
        staged: counts.staged,
        modified: counts.modified,
        untracked: counts.untracked,
        deleted: counts.deleted,
        conflicted: counts.conflicted,
        ahead,
        behind,
    }
}

/// `Repository::open` of `git2`: opens the repository at `path`. Whether it
/// succeeds depends on what is on disk, so nothing is claimed of the result.
#[verifier::external_body]
fn open_repository(path: &Path) -> (r: Result<git2::Repository, GitError>) {
    git2::Repository::open(path)
}

/// `Statuses` of `git2`, by `Repository::statuses` under the four options
/// given: the status bits of each entry, in the order of the listing. What
/// the listing holds depends on the working tree, so nothing is claimed.
#[verifier::external_body]
fn status_entries(
    repo: &git2::Repository,
    include_untracked: bool,
    recurse_untracked_dirs: bool,
    include_ignored: bool,
    exclude_submodules: bool,
) -> (r: Result<Vec<u32>, GitError>) {
    let mut opts = git2::StatusOptions::new();
    opts.include_untracked(include_untracked)
        .recurse_untracked_dirs(recurse_untracked_dirs)
        .include_ignored(include_ignored)
        .exclude_submodules(exclude_submodules);
    let statuses = repo.statuses(Some(&mut opts))?;
    Ok(statuses.iter().map(|entry| entry.status().bits()).collect())
}

/// `Repository::head` of `git2`: the reference that `HEAD` resolves to.
/// Nothing is claimed of the result.
#[verifier::external_body]
fn repository_head<'r>(repo: &'r git2::Repository) -> (r: Result<git2::Reference<'r>, GitError>) {
    repo.head()
}

/// `Repository::find_reference` of `git2`: the reference of that name.
/// Nothing is claimed of the result.
#[verifier::external_body]
fn find_reference<'r>(repo: &'r git2::Repository, name: &str) -> (r: Result<
    git2::Reference<'r>,
    GitError,
>) {
    repo.find_reference(name)
}

/// `Repository::head_detached` of `git2`: whether `HEAD` points at a commit
/// rather than at a branch. Nothing is claimed of the result.
#[verifier::external_body]
fn head_detached(repo: &git2::Repository) -> (r: Result<bool, GitError>) {
    repo.head_detached()
}

/// `Repository::find_branch` of `git2`: the branch of that name and kind.
/// Nothing is claimed of the result.
#[verifier::external_body]
fn find_branch<'r>(repo: &'r git2::Repository, name: &str, kind: git2::BranchType) -> (r: Result<
    git2::Branch<'r>,
    GitError,
>) {
    repo.find_branch(name, kind)
}

/// `Repository::graph_ahead_behind` of `git2`: how many commits each of the
/// two tips has that the other lacks. Nothing is claimed of the result.
#[verifier::external_body]
fn graph_ahead_behind(repo: &git2::Repository, local: git2::Oid, upstream: git2::Oid) -> (r: Result<
    (usize, usize),
    GitError,
>) {
    repo.graph_ahead_behind(local, upstream)
}

/// `Reference::symbolic_target` of `git2`, as an owned string: the name
/// that a symbolic reference points to. Nothing is claimed of the result.
#[verifier::external_body]
fn symbolic_target(reference: &git2::Reference<'_>) -> (r: Option<String>) {
    reference.symbolic_target().map(|s| s.to_string())
}

/// `Reference::shorthand` of `git2`, as an owned string: the readable
/// short name of a reference. Nothing is claimed of the result.
#[verifier::external_body]
fn shorthand(reference: &git2::Reference<'_>) -> (r: Option<String>) {
    reference.shorthand().map(|s| s.to_string())
}

/// `Reference::peel_to_commit` of `git2`, reduced to the id of the commit
/// reached. Nothing is claimed of the result.
#[verifier::external_body]
fn peel_to_commit_id(reference: &git2::Reference<'_>) -> (r: Result<git2::Oid, GitError>) {
    reference.peel_to_commit().map(|commit| commit.id())
}

/// `Branch::upstream` of `git2`: the remote-tracking branch of a local
/// branch. Nothing is claimed of the result.
#[verifier::external_body]
fn branch_upstream<'r>(branch: &git2::Branch<'r>) -> (r: Result<git2::Branch<'r>, GitError>) {
    branch.upstream()
}

/// `Branch::get` of `git2`: the reference that the branch is.
#[verifier::external_body]
fn branch_reference<'a, 'r>(branch: &'a git2::Branch<'r>) -> (r: &'a git2::Reference<'r>) {
    branch.get()
}

/// The `Display` text of an `Oid` of `git2`: its hexadecimal form.
/// Nothing is claimed of the text.
#[verifier::external_body]
fn oid_text(id: git2::Oid) -> (r: String) {
    id.to_string()
}

/// The `Display` text of an `Error` of `git2`. Nothing is claimed of it.
#[verifier::external_body]
fn error_text(e: &GitError) -> (r: String) {
    e.to_string()
}

/// `Error::from_str` of `git2`: an error that carries `message`.
#[verifier::external_body]
fn error_from_str(message: &str) -> (r: GitError) {
    GitError::from_str(message)
}

/// The text of a failure at one step of the read: the step, a colon and a
/// space, then the detail.
pub open spec fn step_message(step: Seq<char>, detail: Seq<char>) -> Seq<char> {
    step + ": "@ + detail
}

/// Whether `message` reports a failure at one of the steps at which
/// [`collect`] gives up.
pub open spec fn names_failed_step(message: Seq<char>) -> bool {
    exists|detail: Seq<char>|
        message == step_message("open"@, detail) || message == step_message("statuses"@, detail)
            || message == step_message("head_detached"@, detail) || message == step_message(
            "peel_to_commit"@,
            detail,
        )
}

/// The Git error for a failure at `step`.
pub fn step_error(step: &str, detail: &str) -> (e: Error)
    ensures
        e matches Error::Git(m) && m@ == step_message(step@, detail@),
{
    Error::Git(String::from_str(step).concat(": ").concat(detail))
}

/// Counts of commits ahead of and behind the upstream of the branch that
/// `head` is on. `detached` says whether `HEAD` is detached, `name` is the
/// short name of `head`, if it has one.
///
/// A detached `HEAD` tracks nothing: the counts are `(0, 0)`, and nothing
/// is read. A `HEAD` that is attached but has no name fails. In every
/// other case the repository decides: the call fails where the branch or
/// its upstream is not found or the history cannot be read.
fn get_ahead_behind(
    repo: &git2::Repository,
    head: &git2::Reference<'_>,
    detached: bool,
    name: &Option<String>,
) -> (r: Result<(usize, usize), GitError>)
    ensures
        detached ==> (r matches Ok(counts) && counts.0 == 0 && counts.1 == 0),
        !detached && name is None ==> r is Err,
{
    if detached {
        return Ok((0, 0));
    }
    let name = match name {
        Some(n) => n,
        None => {
            return Err(error_from_str("no branch name"));
        },
    };
    let branch = match find_branch(repo, name.as_str(), git2::BranchType::Local) {
        Ok(b) => b,
        Err(e) => {
            return Err(e);
        },
    };
    let upstream = match branch_upstream(&branch) {
        Ok(u) => u,
        Err(e) => {
            return Err(e);
        },
    };
    let local_id = match peel_to_commit_id(head) {
        Ok(id) => id,
        Err(e) => {
            return Err(e);
        },
    };
    let upstream_id = match peel_to_commit_id(branch_reference(&upstream)) {
        Ok(id) => id,
        Err(e) => {
            return Err(e);
        },
    };
    graph_ahead_behind(repo, local_id, upstream_id)
}

/// Reads the state of the Git repository at `repo_root`.
///
/// The result depends on what is on disk. Whatever is there: a status that
/// comes back either carries the placeholder id with nothing ahead or
/// behind, or an id of at most `id_length` characters; a status without a
/// branch has nothing ahead or behind; and a failure is a Git error that
/// names the step that failed. A failure to find the upstream counts
/// never fails the read.
pub fn collect(repo_root: &Path, id_length: usize) -> (r: Result<GitInfo, Error>)
    ensures
        match r {
            Ok(info) => {
                &&& (info@.head_short == UNBORN_ID@ && info@.ahead == 0 && info@.behind == 0)
                    || info@.head_short.len() <= id_length
                &&& info@.branch is None ==> info@.ahead == 0 && info@.behind == 0
            },
            Err(e) => e matches Error::Git(m) && names_failed_step(m@),
        },
{
    let repo = match open_repository(repo_root) {
        Ok(repo) => repo,
        Err(e) => {
            let detail = error_text(&e);
            return Err(step_error("open", detail.as_str()));
        },
    };
    let entries = match status_entries(&repo, true, false, false, true) {
        Ok(entries) => entries,
        Err(e) => {
            let detail = error_text(&e);
            return Err(step_error("statuses", detail.as_str()));
        },
    };
    let counts = tally(&entries);
    let head = match repository_head(&repo) {
        Ok(head) => head,
        Err(_) => {
            let target = match find_reference(&repo, "HEAD") {
                Ok(reference) => symbolic_target(&reference),
                Err(_) => None,
            };
            return Ok(unborn_info(target, counts));
        },
    };
    let detached = match head_detached(&repo) {
        Ok(d) => d,
        Err(e) => {
            let detail = error_text(&e);
            return Err(step_error("head_detached", detail.as_str()));
        },
    };
    let name = if detached { None } else { shorthand(&head) };
    let id = match peel_to_commit_id(&head) {
        Ok(id) => id,
        Err(e) => {
            let detail = error_text(&e);
            return Err(step_error("peel_to_commit", detail.as_str()));
        },
    };
    let full_hash = oid_text(id);
    let upstream = match get_ahead_behind(&repo, &head, detached, &name) {
        Ok(counts) => Some(counts),
        Err(_) => None,
    };
    Ok(born_info(detached, name, full_hash.as_str(), id_length, counts, upstream))
}

} // verus!

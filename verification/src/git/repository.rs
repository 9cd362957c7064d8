use vstd::prelude::*;
use vstd::string::StringExecFns;

use crate::git::models::{GitError, GitErrorView, GitRepositoryInfo, GitRepositoryInfoView};
use crate::text::{
    chars_of, is_blank, lines, lines_of, starts_with, str_is_blank, string_of, stripped, trim,
    trim_start_seq, views, without_leading,
};

verus! {

/// The name of the entry that marks a worktree root.
pub const DOT_GIT: &'static str = ".git";

/// What stands under the name `.git` in a directory.
#[derive(Debug)]
pub enum GitEntry {
    /// A directory.
    Directory,
    /// A regular file, with its text where it could be read.
    File(Option<String>),
    /// Nothing that counts.
    Missing,
}

/// What an entry says of the directory that holds it.
#[derive(Debug)]
pub enum EntryKind {
    /// The entry is the metadata directory.
    Metadata,
    /// The entry points at the metadata directory, by this path.
    Link(String),
    /// The directory is no worktree root.
    Nothing,
}

/// The mathematical value of an `EntryKind`.
pub enum EntryKindView {
    Metadata,
    Link(Seq<char>),
    Nothing,
}

impl DeepView for EntryKind {
    type V = EntryKindView;

    open spec fn deep_view(&self) -> EntryKindView {
        match self {
            EntryKind::Metadata => EntryKindView::Metadata,
            EntryKind::Link(t) => EntryKindView::Link(t@),
            EntryKind::Nothing => EntryKindView::Nothing,
        }
    }
}

/// The position of the first line at or after `from` that begins with
/// `gitdir:`, or the number of lines.
pub open spec fn gitdir_line(ls: Seq<Seq<char>>, from: int) -> int
    decreases ls.len() - from,
{
    if 0 <= from < ls.len() && !"gitdir:"@.is_prefix_of(ls[from]) {
        gitdir_line(ls, from + 1)
    } else {
        from
    }
}

/// The path that the text of a `.git` file points at: what follows
/// `gitdir:` on the first line that begins so, without the white space
/// around it.
pub open spec fn gitdir_target(contents: Seq<char>) -> Option<Seq<char>> {
    let ls = lines_of(contents);
    let at = gitdir_line(ls, 0);
    if 0 <= at < ls.len() {
        Some(stripped(without_leading(ls[at], "gitdir:"@)))
    } else {
        None
    }
}

/// Reads the text of a `.git` file.
pub fn parse_gitdir(contents: &str) -> (r: Option<String>)
    ensures
        r.deep_view() == gitdir_target(contents@),
{
    let text = chars_of(contents);
    let ls = lines(text.as_slice());
    let mark = chars_of("gitdir:");
    let ghost all = views(ls@);
    let mut i: usize = 0;
    while i < ls.len()
        invariant
            i <= ls@.len(),
            all == views(ls@),
            all == lines_of(contents@),
            mark@ == "gitdir:"@,
            gitdir_line(all, 0) == gitdir_line(all, i as int),
        decreases ls@.len() - i,
    {
        if starts_with(ls[i], mark.as_slice()) {
            let target = trim(trim_start_seq(ls[i], mark.as_slice()));
            return Some(string_of(target));
        }
        i += 1;
    }
    None
}

/// What an entry says: a directory is the metadata directory, a file that
/// names a target points at it, and anything else says nothing.
pub open spec fn entry_kind(entry: GitEntry) -> EntryKindView {
    match entry {
        GitEntry::Directory => EntryKindView::Metadata,
        GitEntry::File(Some(contents)) => match gitdir_target(contents@) {
            Some(target) => EntryKindView::Link(target),
            None => EntryKindView::Nothing,
        },
        _ => EntryKindView::Nothing,
    }
}

/// Tells what an entry says of the directory that holds it.
pub fn classify_entry(entry: &GitEntry) -> (r: EntryKind)
    ensures
        r.deep_view() == entry_kind(*entry),
{
    match entry {
        GitEntry::Directory => EntryKind::Metadata,
        GitEntry::File(Some(contents)) => match parse_gitdir(contents.as_str()) {
            Some(target) => EntryKind::Link(target),
            None => EntryKind::Nothing,
        },
        _ => EntryKind::Nothing,
    }
}

/// The repository with this worktree root and this metadata directory.
pub open spec fn repository_at(root: Seq<char>, git_dir: Seq<char>) -> GitRepositoryInfoView {
    GitRepositoryInfoView { is_repository: true, worktree_root: Some(root), git_dir: Some(git_dir) }
}

/// The answer for a path that lies in no repository.
pub open spec fn no_repository() -> GitRepositoryInfoView {
    GitRepositoryInfoView { is_repository: false, worktree_root: None, git_dir: None }
}

/// The answer for a path that lies in no repository.
pub fn not_a_repository() -> (r: GitRepositoryInfo)
    ensures
        r.deep_view() == no_repository(),
{
    GitRepositoryInfo { is_repository: false, worktree_root: None, git_dir: None }
}

/// The repository that an entry of `directory` shows, if it shows one.
/// `dot_git` is the path of the entry itself; `target_is_absolute` says
/// whether the target of a link is an absolute path, and `joined_target` is
/// that target taken relative to `directory`.
pub fn repository_from_entry(
    directory: &str,
    kind: EntryKind,
    dot_git: String,
    target_is_absolute: bool,
    joined_target: String,
) -> (r: Option<GitRepositoryInfo>)
    ensures
        r.deep_view() == match kind.deep_view() {
            EntryKindView::Metadata => Some(repository_at(directory@, dot_git@)),
            EntryKindView::Link(target) => Some(
                repository_at(
                    directory@,
                    if target_is_absolute {
                        target
                    } else {
                        joined_target@
                    },
                ),
            ),
            EntryKindView::Nothing => None,
        },
{
    match kind {
        EntryKind::Metadata => Some(
            GitRepositoryInfo {
                is_repository: true,
                worktree_root: Some(String::from_str(directory)),
                git_dir: Some(dot_git),
            },
        ),
        EntryKind::Link(target) => Some(
            GitRepositoryInfo {
                is_repository: true,
                worktree_root: Some(String::from_str(directory)),
                git_dir: Some(
                    if target_is_absolute {
                        target
                    } else {
                        joined_target
                    },
                ),
            },
        ),
        EntryKind::Nothing => None,
    }
}

/// Asks `Path::is_absolute` whether `path` is absolute on this platform.
/// Nothing is claimed of the answer.
#[verifier::external_body]
fn path_is_absolute(path: &str) -> (r: bool) {
    std::path::Path::new(path).is_absolute()
}

/// `child` taken relative to `base`, by `Path::join`, as text. Nothing is
/// claimed of the result.
#[verifier::external_body]
fn path_join(base: &str, child: &str) -> (r: String) {
    std::path::Path::new(base).join(child).to_string_lossy().into_owned()
}

/// The repository that the entry `.git` of `directory` shows, if it shows
/// one: `directory` is then the worktree root. `dot_git` is the path of the
/// entry itself, which is the metadata directory where the entry is a
/// directory. Where the entry points elsewhere, the platform's path rules
/// give the metadata directory.
pub fn detect_repository_at(directory: &str, dot_git: &str, entry: &GitEntry) -> (r: Option<
    GitRepositoryInfo,
>)
    ensures
        r is Some <==> !(entry_kind(*entry) is Nothing),
        r is Some ==> r->0.is_repository && r->0.worktree_root.deep_view() == Some(directory@)
            && r->0.git_dir is Some,
        entry_kind(*entry) is Metadata ==> r->0.git_dir.deep_view() == Some(dot_git@),
{
    let kind = classify_entry(entry);
    let (absolute, joined) = match &kind {
        EntryKind::Link(target) => (
            path_is_absolute(target.as_str()),
            path_join(directory, target.as_str()),
        ),
        _ => (false, String::new()),
    };
    repository_from_entry(directory, kind, String::from_str(dot_git), absolute, joined)
}

/// The directory to resolve for `path`: `path` itself where it is a
/// directory, else its parent. A blank path and a path without a parent are
/// refused.
pub open spec fn directory_of(path: Seq<char>, is_dir: bool, parent: Option<Seq<char>>) -> Result<
    Seq<char>,
    GitErrorView,
> {
    if is_blank(path) {
        Err(GitErrorView::InvalidPath("path cannot be empty"@))
    } else if is_dir {
        Ok(path)
    } else {
        match parent {
            Some(p) => Ok(p),
            None => Err(GitErrorView::InvalidPath("path does not exist"@)),
        }
    }
}

/// Picks the directory to resolve for `path`, given whether `path` is a
/// directory and what its parent is.
pub fn canonicalize_target(path: &str, is_dir: bool, parent: Option<String>) -> (r: Result<
    String,
    GitError,
>)
    ensures
        match r {
            Ok(dir) => directory_of(path@, is_dir, parent.deep_view()) == Ok::<
                Seq<char>,
                GitErrorView,
            >(dir@),
            Err(e) => directory_of(path@, is_dir, parent.deep_view()) == Err::<
                Seq<char>,
                GitErrorView,
            >(e.deep_view()),
        },
{
    if str_is_blank(path) {
        return Err(GitError::InvalidPath(String::from_str("path cannot be empty")));
    }
    if is_dir {
        return Ok(String::from_str(path));
    }
    match parent {
        Some(p) => Ok(p),
        None => Err(GitError::InvalidPath(String::from_str("path does not exist"))),
    }
}

/// The error for a directory that cannot be resolved.
pub fn unresolved_path() -> (r: GitError)
    ensures
        r.deep_view() == GitErrorView::InvalidPath("path does not exist"@),
{
    GitError::InvalidPath(String::from_str("path does not exist"))
}

/// The directory at which the search for a repository starts: `path` itself
/// where it is a directory or has no parent, else its parent.
pub fn search_start(path: &str, is_dir: bool, parent: Option<String>) -> (r: String)
    ensures
        r@ == if is_dir {
            path@
        } else {
            match parent {
                Some(p) => p@,
                None => path@,
            }
        },
{
    if is_dir {
        return String::from_str(path);
    }
    match parent {
        Some(p) => p,
        None => String::from_str(path),
    }
}

/// One directory on the way up from a path, with what stands under the
/// name `.git` in it.
#[derive(Debug)]
pub struct AncestorProbe {
    /// The directory.
    pub directory: String,
    /// The path of its entry `.git`.
    pub dot_git: String,
    /// What stands there.
    pub entry: GitEntry,
}

/// The position of the first probe at or after `from` whose entry shows a
/// repository, or the number of probes.
pub open spec fn first_root(probes: Seq<AncestorProbe>, from: int) -> int
    decreases probes.len() - from,
{
    if 0 <= from < probes.len() && entry_kind(probes[from].entry) is Nothing {
        first_root(probes, from + 1)
    } else {
        from
    }
}

/// Finds the repository that a path belongs to. `probes` holds the
/// directory at which the search starts and then each of its ancestors, up
/// to the root of the file system. The first of them whose `.git` entry
/// shows a repository is the worktree root; where none does, the path
/// belongs to no repository.
pub fn detect_repository(probes: &Vec<AncestorProbe>) -> (r: GitRepositoryInfo)
    ensures
        first_root(probes@, 0) >= probes@.len() ==> r.deep_view() == no_repository(),
        first_root(probes@, 0) < probes@.len() ==> r.is_repository && r.worktree_root.deep_view()
            == Some(probes@[first_root(probes@, 0)].directory@) && r.git_dir is Some,
        first_root(probes@, 0) < probes@.len() && entry_kind(
            probes@[first_root(probes@, 0)].entry,
        ) is Metadata ==> r.git_dir.deep_view() == Some(
            probes@[first_root(probes@, 0)].dot_git@,
        ),
{
    let mut i: usize = 0;
    while i < probes.len()
        invariant
            i <= probes@.len(),
            first_root(probes@, 0) == first_root(probes@, i as int),
        decreases probes@.len() - i,
    {
        match detect_repository_at(
            probes[i].directory.as_str(),
            probes[i].dot_git.as_str(),
            &probes[i].entry,
        ) {
            Some(info) => {
                return info;
            },
            None => {},
        }
        i += 1;
    }
    not_a_repository()
}

} // verus!

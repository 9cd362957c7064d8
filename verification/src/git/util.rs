use vstd::prelude::*;
use vstd::slice::slice_subrange;
use vstd::string::StringExecFns;

use crate::git::models::{
    GitBranchesResponse, GitBranchesView, GitCommitDetails, GitCommitDetailsView,
    GitCommitFileChange, GitCommitFileChangeView, GitError, GitErrorView, GitFileChange,
    GitFileChangeView, GitGraphEntry, GitGraphEntryView, GitGraphResponse, GitLogEntry,
    GitLogEntryView, GitLogResponse, GitRemote, GitRemoteList, GitRemoteView, GitStashEntry,
    GitStashEntryView, GitStashList, GitStatusResponse, GitStatusView,
};
use crate::text::{
    chars_of, contains_seq, find_char, find_seq, has_seq, is_blank, join, joined,
    lemma_views_push, lines, lines_of, list_contains, parse_u32, parsed_u32,
    lemma_position_of, piece, position_of, position_of_seq, skip_class, skip_while, split, split_limit, split_on, splitn,
    starts_with, str_contains_char, string_of, strip_prefix, stripped, trim, trim_class, trim_start,
    trim_start_seq, trimmed, trimmed_start, views, without_leading, without_prefix, words,
    words_of, CharClass,
};

verus! {

/// What `f` gives for the items for which it gives something, in order.
pub open spec fn collect_some<A, B>(items: Seq<A>, f: spec_fn(A) -> Option<B>) -> Seq<B>
    decreases items.len(),
{
    if items.len() == 0 {
        Seq::empty()
    } else {
        let before = collect_some(items.drop_last(), f);
        match f(items.last()) {
            Some(b) => before.push(b),
            None => before,
        }
    }
}

/// The remote that one line of the listing describes: its first three words
/// are the name, the address and the kind, the kind without the parentheses
/// around it. A line of fewer words describes none.
pub open spec fn remote_of_line(line: Seq<char>) -> Option<GitRemoteView> {
    let parts = words_of(line);
    if parts.len() >= 3 {
        Some(
            GitRemoteView {
                name: parts[0],
                url: parts[1],
                kind: trimmed(parts[2], CharClass::Either('(', ')')),
            },
        )
    } else {
        None
    }
}

/// The remotes that the lines describe.
pub open spec fn remotes_of_lines(ls: Seq<Seq<char>>) -> Seq<GitRemoteView> {
    collect_some(ls, |l: Seq<char>| remote_of_line(l))
}

/// The remotes that a listing of remotes describes.
pub open spec fn remotes_of(output: Seq<char>) -> Seq<GitRemoteView> {
    remotes_of_lines(lines_of(output))
}

/// Reads a listing of remotes. Lines that describe no remote are passed
/// over.
pub fn parse_remotes(output: &str) -> (r: GitRemoteList)
    ensures
        r.remotes.deep_view() == remotes_of(output@),
{
    let text = chars_of(output);
    let ls = lines(text.as_slice());
    let mut remotes: Vec<GitRemote> = Vec::new();
    let mut i: usize = 0;
    let ghost all = views(ls@);
    assert(remotes.deep_view() =~= remotes_of_lines(all.take(0)));
    while i < ls.len()
        invariant
            i <= ls@.len(),
            all == views(ls@),
            remotes.deep_view() == remotes_of_lines(all.take(i as int)),
        decreases ls@.len() - i,
    {
        let parts = words(ls[i]);
        let ghost before = remotes.deep_view();
        proof {
            assert(all.take(i + 1).drop_last() =~= all.take(i as int));
            assert(all.take(i + 1).last() == ls@[i as int]@);
        }
        if parts.len() >= 3 {
            let remote = GitRemote {
                name: string_of(parts[0]),
                url: string_of(parts[1]),
                kind: string_of(trim_class(parts[2], CharClass::Either('(', ')'))),
            };
            remotes.push(remote);
            proof {
                assert(remotes.deep_view() =~= before.push(remote.deep_view()));
            }
        }
        i += 1;
    }
    proof {
        assert(all.take(ls@.len() as int) =~= all);
    }
    GitRemoteList { remotes }
}

/// One owned string for each piece.
pub fn strings_of(parts: &Vec<&[char]>) -> (out: Vec<String>)
    ensures
        out.deep_view() == views(parts@),
{
    let mut out: Vec<String> = Vec::new();
    let mut i: usize = 0;
    while i < parts.len()
        invariant
            i <= parts@.len(),
            out.deep_view() =~= views(parts@).take(i as int),
        decreases parts@.len() - i,
    {
        let ghost before = out.deep_view();
        let item = string_of(parts[i]);
        out.push(item);
        proof {
            assert(out.deep_view() =~= before.push(item@));
            assert(views(parts@).take(i + 1) =~= views(parts@).take(i as int).push(
                parts@[i as int]@,
            ));
        }
        i += 1;
    }
    proof {
        assert(views(parts@).take(parts@.len() as int) =~= views(parts@));
    }
    out
}

/// The `i`-th piece as an owned string, empty where there are fewer pieces.
pub fn piece_string(parts: &Vec<&[char]>, i: usize) -> (r: String)
    ensures
        r@ == piece(views(parts@), i as int),
{
    if i < parts.len() {
        string_of(parts[i])
    } else {
        String::new()
    }
}

/// The field separator of the stash listing: the unit separator.
pub open spec fn stash_separator() -> char {
    '\u{1f}'
}

/// The stash that one line of the listing describes: four fields, namely
/// hash, name, relative time and message. A line of fewer fields describes
/// none; fields after the fourth are ignored.
pub open spec fn stash_of_line(line: Seq<char>) -> Option<GitStashEntryView> {
    let parts = split_on(line, stash_separator());
    if parts.len() >= 4 {
        Some(
            GitStashEntryView {
                hash: parts[0],
                name: parts[1],
                relative_time: parts[2],
                message: parts[3],
            },
        )
    } else {
        None
    }
}

/// The stashes that the lines describe.
pub open spec fn stashes_of_lines(ls: Seq<Seq<char>>) -> Seq<GitStashEntryView> {
    collect_some(ls, |l: Seq<char>| stash_of_line(l))
}

/// The stashes that a stash listing describes.
pub open spec fn stashes_of(output: Seq<char>) -> Seq<GitStashEntryView> {
    stashes_of_lines(lines_of(output))
}

/// Reads a stash listing. Lines of fewer than four fields are passed over.
pub fn parse_stash_list(output: &str) -> (r: GitStashList)
    ensures
        r.entries.deep_view() == stashes_of(output@),
{
    let text = chars_of(output);
    let ls = lines(text.as_slice());
    let mut entries: Vec<GitStashEntry> = Vec::new();
    let mut i: usize = 0;
    let ghost all = views(ls@);
    assert(entries.deep_view() =~= stashes_of_lines(all.take(0)));
    while i < ls.len()
        invariant
            i <= ls@.len(),
            all == views(ls@),
            entries.deep_view() == stashes_of_lines(all.take(i as int)),
        decreases ls@.len() - i,
    {
        let parts = split(ls[i], '\u{1f}');
        let ghost before = entries.deep_view();
        proof {
            assert(all.take(i + 1).drop_last() =~= all.take(i as int));
            assert(all.take(i + 1).last() == ls@[i as int]@);
        }
        if parts.len() >= 4 {
            let entry = GitStashEntry {
                hash: string_of(parts[0]),
                name: string_of(parts[1]),
                relative_time: string_of(parts[2]),
                message: string_of(parts[3]),
            };
            entries.push(entry);
            proof {
                assert(entries.deep_view() =~= before.push(entry.deep_view()));
            }
        }
        i += 1;
    }
    proof {
        assert(all.take(ls@.len() as int) =~= all);
    }
    GitStashList { entries }
}

/// The commit that one line of the graph listing describes. The line is
/// taken without the white space around it and cut at its first four
/// vertical bars into hash, parents, author, date and subject; a field that
/// is missing is empty, and the parents are the words of their field. A
/// blank line describes no commit.
pub open spec fn graph_entry_of_line(line: Seq<char>) -> Option<GitGraphEntryView> {
    let parts = split_limit(stripped(line), '|', 5);
    if stripped(line).len() == 0 {
        None
    } else {
        Some(
            GitGraphEntryView {
                commit: piece(parts, 0),
                parents: words_of(piece(parts, 1)),
                author: piece(parts, 2),
                date: piece(parts, 3),
                subject: piece(parts, 4),
            },
        )
    }
}

/// The commits that the lines describe.
pub open spec fn graph_of_lines(ls: Seq<Seq<char>>) -> Seq<GitGraphEntryView> {
    collect_some(ls, |l: Seq<char>| graph_entry_of_line(l))
}

/// The commits that a graph listing describes.
pub open spec fn graph_of(output: Seq<char>) -> Seq<GitGraphEntryView> {
    graph_of_lines(lines_of(output))
}

/// Reads a graph listing. Blank lines are passed over.
pub fn parse_graph(output: &str) -> (r: GitGraphResponse)
    ensures
        r.entries.deep_view() == graph_of(output@),
{
    let text = chars_of(output);
    let ls = lines(text.as_slice());
    let mut entries: Vec<GitGraphEntry> = Vec::new();
    let mut i: usize = 0;
    let ghost all = views(ls@);
    assert(entries.deep_view() =~= graph_of_lines(all.take(0)));
    while i < ls.len()
        invariant
            i <= ls@.len(),
            all == views(ls@),
            entries.deep_view() == graph_of_lines(all.take(i as int)),
        decreases ls@.len() - i,
    {
        let trimmed_line = trim(ls[i]);
        let ghost before = entries.deep_view();
        proof {
            assert(all.take(i + 1).drop_last() =~= all.take(i as int));
            assert(all.take(i + 1).last() == ls@[i as int]@);
        }
        if trimmed_line.len() > 0 {
            let parts = splitn(trimmed_line, '|', 5);
            let parents_part: &[char] = if parts.len() > 1 {
                parts[1]
            } else {
                slice_subrange(trimmed_line, 0, 0)
            };
            assert(parents_part@ =~= piece(views(parts@), 1));
            let parents = words(parents_part);
            let entry = GitGraphEntry {
                commit: piece_string(&parts, 0),
                parents: strings_of(&parents),
                author: piece_string(&parts, 2),
                date: piece_string(&parts, 3),
                subject: piece_string(&parts, 4),
            };
            entries.push(entry);
            proof {
                assert(entries.deep_view() =~= before.push(entry.deep_view()));
            }
        }
        i += 1;
    }
    proof {
        assert(all.take(ls@.len() as int) =~= all);
    }
    GitGraphResponse { entries }
}

/// The name that one piece of a decoration list holds: the piece without
/// the white space around it, unless nothing is left.
pub open spec fn decoration_of(part: Seq<char>) -> Option<Seq<char>> {
    if stripped(part).len() > 0 {
        Some(stripped(part))
    } else {
        None
    }
}

/// The names in a comma-separated decoration list.
pub open spec fn decorations_of_parts(parts: Seq<Seq<char>>) -> Seq<Seq<char>> {
    collect_some(parts, |p: Seq<char>| decoration_of(p))
}

/// The names in a comma-separated decoration list.
pub open spec fn decorations_of(list: Seq<char>) -> Seq<Seq<char>> {
    decorations_of_parts(split_on(list, ','))
}

/// The entry that one line of the short log describes. The hash runs up to
/// the first space. Where the rest, taken without the white space around it,
/// begins with a parenthesis that is closed further on, the text between the
/// two is the decoration list and the summary is what follows; otherwise the
/// rest is the summary.
pub open spec fn log_entry_of_line(line: Seq<char>) -> GitLogEntryView {
    let parts = split_limit(line, ' ', 2);
    let rest = stripped(piece(parts, 1));
    let close = position_of(rest, ')', 0);
    if rest.len() > 0 && rest[0] == '(' && 0 < close < rest.len() {
        GitLogEntryView {
            commit: piece(parts, 0),
            refs: decorations_of(rest.subrange(1, close)),
            summary: stripped(rest.skip(close + 1)),
        }
    } else {
        GitLogEntryView { commit: piece(parts, 0), refs: Seq::empty(), summary: rest }
    }
}

/// The entries that the lines describe, one for each line.
pub open spec fn log_of_lines(ls: Seq<Seq<char>>) -> Seq<GitLogEntryView> {
    Seq::new(ls.len(), |i: int| log_entry_of_line(ls[i]))
}

/// The entries that a short log describes.
pub open spec fn log_of(output: Seq<char>) -> Seq<GitLogEntryView> {
    log_of_lines(lines_of(output))
}

/// The names in a comma-separated decoration list.
pub fn parse_decorations(list: &[char]) -> (out: Vec<String>)
    ensures
        out.deep_view() == decorations_of(list@),
{
    let parts = split(list, ',');
    let mut out: Vec<String> = Vec::new();
    let mut i: usize = 0;
    let ghost all = views(parts@);
    assert(out.deep_view() =~= decorations_of_parts(all.take(0)));
    while i < parts.len()
        invariant
            i <= parts@.len(),
            all == views(parts@),
            out.deep_view() == decorations_of_parts(all.take(i as int)),
        decreases parts@.len() - i,
    {
        let name = trim(parts[i]);
        let ghost before = out.deep_view();
        proof {
            assert(all.take(i + 1).drop_last() =~= all.take(i as int));
            assert(all.take(i + 1).last() == parts@[i as int]@);
        }
        if name.len() > 0 {
            let item = string_of(name);
            out.push(item);
            proof {
                assert(out.deep_view() =~= before.push(item@));
            }
        }
        i += 1;
    }
    proof {
        assert(all.take(parts@.len() as int) =~= all);
    }
    out
}

/// The entry that one line of the short log describes.
pub fn parse_log_line(line: &[char]) -> (entry: GitLogEntry)
    ensures
        entry.deep_view() == log_entry_of_line(line@),
{
    let parts = splitn(line, ' ', 2);
    let commit = piece_string(&parts, 0);
    let tail: &[char] = if parts.len() > 1 {
        parts[1]
    } else {
        slice_subrange(line, 0, 0)
    };
    assert(tail@ =~= piece(views(parts@), 1));
    let rest = trim(tail);
    if rest.len() > 0 && rest[0] == '(' {
        let close = find_char(rest, ')', 0);
        if close < rest.len() {
            let refs = parse_decorations(slice_subrange(rest, 1, close));
            let summary = string_of(trim(slice_subrange(rest, close + 1, rest.len())));
            return GitLogEntry { commit, refs, summary };
        }
    }
    let entry = GitLogEntry { commit, refs: Vec::new(), summary: string_of(rest) };
    proof {
        assert(entry.refs.deep_view() =~= Seq::<Seq<char>>::empty());
    }
    entry
}

/// Reads a short log, one entry for each line.
pub fn parse_log(output: &str) -> (r: GitLogResponse)
    ensures
        r.entries.deep_view() == log_of(output@),
{
    let text = chars_of(output);
    let ls = lines(text.as_slice());
    let mut entries: Vec<GitLogEntry> = Vec::new();
    let mut i: usize = 0;
    let ghost all = views(ls@);
    while i < ls.len()
        invariant
            i <= ls@.len(),
            all == views(ls@),
            entries.deep_view() =~= log_of_lines(all.take(i as int)),
        decreases ls@.len() - i,
    {
        let ghost before = entries.deep_view();
        let entry = parse_log_line(ls[i]);
        entries.push(entry);
        proof {
            assert(entries.deep_view() =~= before.push(entry.deep_view()));
            assert(log_of_lines(all.take(i + 1)) =~= log_of_lines(all.take(i as int)).push(
                log_entry_of_line(all[i as int]),
            ));
        }
        i += 1;
    }
    proof {
        assert(all.take(ls@.len() as int) =~= all);
    }
    GitLogResponse { entries }
}

/// No branch seen yet.
pub open spec fn no_branches() -> GitBranchesView {
    GitBranchesView { current: None, local: Seq::empty(), remote: Seq::empty() }
}

/// The name on one line of the branch listing: the line without the white
/// space around it, without the asterisks at its start and without the white
/// space then left around it.
pub open spec fn branch_name_of(line: Seq<char>) -> Seq<char> {
    stripped(trimmed_start(stripped(line), CharClass::Only('*')))
}

/// The branches after one more line of the listing. A blank line changes
/// nothing. A name that begins with `remotes/` joins the remote branches,
/// any other the local ones, unless it is already among them. A line that
/// begins with an asterisk makes its name the current branch, whether the
/// name was new or not.
pub open spec fn branches_step(acc: GitBranchesView, line: Seq<char>) -> GitBranchesView {
    let t = stripped(line);
    let name = branch_name_of(line);
    let is_remote = "remotes/"@.is_prefix_of(name);
    if t.len() == 0 {
        acc
    } else {
        GitBranchesView {
            current: if t[0] == '*' {
                Some(name)
            } else {
                acc.current
            },
            local: if !is_remote && !acc.local.contains(name) {
                acc.local.push(name)
            } else {
                acc.local
            },
            remote: if is_remote && !acc.remote.contains(name) {
                acc.remote.push(name)
            } else {
                acc.remote
            },
        }
    }
}

/// The branches that the lines list.
pub open spec fn branches_of_lines(ls: Seq<Seq<char>>) -> GitBranchesView
    decreases ls.len(),
{
    if ls.len() == 0 {
        no_branches()
    } else {
        branches_step(branches_of_lines(ls.drop_last()), ls.last())
    }
}

/// The branches that a branch listing lists.
pub open spec fn branches_of(output: Seq<char>) -> GitBranchesView {
    branches_of_lines(lines_of(output))
}

/// Reads a branch listing.
pub fn parse_branches(output: &str) -> (r: GitBranchesResponse)
    ensures
        r.deep_view() == branches_of(output@),
{
    let text = chars_of(output);
    let ls = lines(text.as_slice());
    let prefix = chars_of("remotes/");
    let mut current: Option<&[char]> = None;
    let mut local: Vec<&[char]> = Vec::new();
    let mut remote: Vec<&[char]> = Vec::new();
    let mut i: usize = 0;
    let ghost all = views(ls@);
    let ghost mut acc = no_branches();
    proof {
        assert(views(local@) =~= acc.local);
        assert(views(remote@) =~= acc.remote);
    }
    while i < ls.len()
        invariant
            i <= ls@.len(),
            all == views(ls@),
            prefix@ == "remotes/"@,
            acc == branches_of_lines(all.take(i as int)),
            views(local@) == acc.local,
            views(remote@) == acc.remote,
            match current {
                Some(c) => acc.current == Some(c@),
                None => acc.current is None,
            },
        decreases ls@.len() - i,
    {
        proof {
            assert(all.take(i + 1).drop_last() =~= all.take(i as int));
            assert(all.take(i + 1).last() == ls@[i as int]@);
        }
        let t = trim(ls[i]);
        if t.len() > 0 {
            let is_current = t[0] == '*';
            let name = trim(trim_start(t, CharClass::Only('*')));
            if starts_with(name, prefix.as_slice()) {
                if !list_contains(&remote, name) {
                    let ghost before = remote@;
                    remote.push(name);
                    proof {
                        lemma_views_push(before, name);
                    }
                }
            } else if !list_contains(&local, name) {
                let ghost before = local@;
                local.push(name);
                proof {
                    lemma_views_push(before, name);
                }
            }
            if is_current {
                current = Some(name);
            }
        }
        proof {
            acc = branches_step(acc, ls@[i as int]@);
        }
        i += 1;
    }
    proof {
        assert(all.take(ls@.len() as int) =~= all);
    }
    let current_name: Option<String> = match current {
        Some(c) => Some(string_of(c)),
        None => None,
    };
    GitBranchesResponse { current: current_name, local: strings_of(&local), remote: strings_of(&remote) }
}

/// The first position at or after `from` that holds a blank line, or the
/// number of lines.
pub open spec fn first_blank(ls: Seq<Seq<char>>, from: int) -> int
    decreases ls.len() - from,
{
    if 0 <= from < ls.len() && !is_blank(ls[from]) {
        first_blank(ls, from + 1)
    } else {
        from
    }
}

/// The separator between the lines of a commit message.
pub open spec fn line_feed() -> Seq<char> {
    seq!['\n']
}

/// Where the first word of `t` ends: the first position that holds white
/// space, or the length of `t`.
pub open spec fn first_word_end(t: Seq<char>) -> int {
    skip_class(t, CharClass::NonWhitespace, 0, t.len() as int)
}

/// The file that one line of the name-and-status listing describes. The
/// line is taken without the white space around it; its first word is the
/// status, and what follows the white space behind that word is the path,
/// as it stands. A line without a status or without a path describes none.
pub open spec fn commit_file_of_line(line: Seq<char>) -> Option<GitCommitFileChangeView> {
    let t = stripped(line);
    let status = t.take(first_word_end(t));
    let path = trimmed_start(t.skip(first_word_end(t)), CharClass::Whitespace);
    if status.len() > 0 && path.len() > 0 {
        Some(GitCommitFileChangeView { status, path })
    } else {
        None
    }
}

/// The files that the lines describe.
pub open spec fn commit_files_of_lines(ls: Seq<Seq<char>>) -> Seq<GitCommitFileChangeView> {
    collect_some(ls, |l: Seq<char>| commit_file_of_line(l))
}

/// Where the message of a commit begins among the lines of its description.
pub open spec fn message_start(ls: Seq<Seq<char>>) -> int {
    if ls.len() < 3 {
        ls.len() as int
    } else {
        3
    }
}

/// Where the files of a commit begin among the lines of its description:
/// after the first blank line that follows the header.
pub open spec fn files_start(ls: Seq<Seq<char>>) -> int {
    let end = first_blank(ls, message_start(ls));
    if end < ls.len() {
        end + 1
    } else {
        ls.len() as int
    }
}

/// The commit that its description shows. The first three lines are hash,
/// author and date. The lines up to the first blank one, joined by line
/// feeds and taken without the white space around the whole, are the
/// message. Each line after that blank one describes a file.
pub open spec fn commit_details_of(output: Seq<char>) -> GitCommitDetailsView {
    let ls = lines_of(output);
    GitCommitDetailsView {
        commit: piece(ls, 0),
        author: piece(ls, 1),
        date: piece(ls, 2),
        message: stripped(
            joined(ls.subrange(message_start(ls), first_blank(ls, message_start(ls))), line_feed()),
        ),
        files: commit_files_of_lines(ls.skip(files_start(ls))),
    }
}

/// Reads the description of one commit. Text that ends early gives empty
/// fields.
pub fn parse_commit_details(output: &str) -> (r: GitCommitDetails)
    ensures
        r.deep_view() == commit_details_of(output@),
{
    let text = chars_of(output);
    let ls = lines(text.as_slice());
    let ghost all = views(ls@);
    let commit = piece_string(&ls, 0);
    let author = piece_string(&ls, 1);
    let date = piece_string(&ls, 2);
    let start: usize = if ls.len() < 3 {
        ls.len()
    } else {
        3
    };
    let mut message_lines: Vec<&[char]> = Vec::new();
    let mut i: usize = start;
    while i < ls.len() && trim(ls[i]).len() > 0
        invariant
            start <= i <= ls@.len(),
            all == views(ls@),
            first_blank(all, start as int) == first_blank(all, i as int),
            views(message_lines@) =~= all.subrange(start as int, i as int),
        decreases ls@.len() - i,
    {
        let ghost before = message_lines@;
        message_lines.push(ls[i]);
        proof {
            lemma_views_push(before, ls@[i as int]);
        }
        i += 1;
    }
    let separator: Vec<char> = vec!['\n'];
    assert(separator@ =~= line_feed());
    let body = join(&message_lines, separator.as_slice());
    let message = string_of(trim(body.as_slice()));
    let mut j: usize = if i < ls.len() {
        i + 1
    } else {
        ls.len()
    };
    let ghost from = j as int;
    let mut files: Vec<GitCommitFileChange> = Vec::new();
    assert(files.deep_view() =~= commit_files_of_lines(all.subrange(from, j as int)));
    while j < ls.len()
        invariant
            0 <= from <= j <= ls@.len(),
            all == views(ls@),
            files.deep_view() == commit_files_of_lines(all.subrange(from, j as int)),
        decreases ls@.len() - j,
    {
        let t = trim(ls[j]);
        let cut = skip_while(t, CharClass::NonWhitespace, 0, t.len());
        let status = slice_subrange(t, 0, cut);
        let path = trim_start(slice_subrange(t, cut, t.len()), CharClass::Whitespace);
        let ghost before = files.deep_view();
        proof {
            assert(all.subrange(from, j + 1).drop_last() =~= all.subrange(from, j as int));
            assert(all.subrange(from, j + 1).last() == ls@[j as int]@);
        }
        if status.len() > 0 && path.len() > 0 {
            let file = GitCommitFileChange { status: string_of(status), path: string_of(path) };
            files.push(file);
            proof {
                assert(files.deep_view() =~= before.push(file.deep_view()));
            }
        }
        j += 1;
    }
    proof {
        assert(all.subrange(from, ls@.len() as int) =~= all.skip(from));
    }
    GitCommitDetails { commit, author, date, message, files }
}

/// An argument for the command line, checked: the value itself where it is
/// not empty and holds no NUL character, else the error that names the
/// argument by `field`.
pub open spec fn sanitized(value: Seq<char>, field: Seq<char>) -> Result<Seq<char>, GitErrorView> {
    if value.len() == 0 {
        Err(GitErrorView::InvalidArgument(field + " cannot be empty"@))
    } else if value.contains('\0') {
        Err(GitErrorView::InvalidArgument(field + " may not contain null bytes"@))
    } else {
        Ok(value)
    }
}

/// Checks an argument for the command line.
pub fn sanitize_arg(value: &str, field: &str) -> (r: Result<String, GitError>)
    ensures
        match r {
            Ok(v) => sanitized(value@, field@) == Ok::<Seq<char>, GitErrorView>(v@),
            Err(e) => sanitized(value@, field@) == Err::<Seq<char>, GitErrorView>(e.deep_view()),
        },
{
    if value.is_empty() {
        return Err(
            GitError::InvalidArgument(String::from_str(field).concat(" cannot be empty")),
        );
    }
    if str_contains_char(value, '\0') {
        return Err(
            GitError::InvalidArgument(
                String::from_str(field).concat(" may not contain null bytes"),
            ),
        );
    }
    Ok(value.to_owned())
}

/// An argument is accepted, and unchanged, exactly where it is not empty and
/// holds no NUL character.
pub proof fn lemma_sanitized_accepts(value: Seq<char>, field: Seq<char>)
    ensures
        sanitized(value, field) is Ok <==> value.len() > 0 && !value.contains('\0'),
        sanitized(value, field) is Ok ==> sanitized(value, field)->Ok_0 == value,
        sanitized(value, field) is Err ==> sanitized(value, field)->Err_0 is InvalidArgument,
{
}

/// The branch part of a status report.
pub struct BranchHeaderView {
    pub branch: Option<Seq<char>>,
    pub upstream: Option<Seq<char>>,
    pub ahead: u32,
    pub behind: u32,
    pub detached: bool,
}

/// The branch part of a status report, from its five values.
pub open spec fn header_view(
    branch: Option<String>,
    upstream: Option<String>,
    ahead: u32,
    behind: u32,
    detached: bool,
) -> BranchHeaderView {
    BranchHeaderView {
        branch: branch.deep_view(),
        upstream: upstream.deep_view(),
        ahead,
        behind,
        detached,
    }
}

/// The counts after one more part of the bracketed summary: `ahead N` sets
/// the first and `behind N` the second, where `N` is a number; any other
/// part changes nothing.
pub open spec fn count_step(acc: (u32, u32), part: Seq<char>) -> (u32, u32) {
    let p = stripped(part);
    match without_prefix(p, "ahead "@) {
        Some(v) => match parsed_u32(v) {
            Some(n) => (n, acc.1),
            None => acc,
        },
        None => match without_prefix(p, "behind "@) {
            Some(v) => match parsed_u32(v) {
                Some(n) => (acc.0, n),
                None => acc,
            },
            None => acc,
        },
    }
}

/// The counts after all the parts of the bracketed summary.
pub open spec fn counts_of(parts: Seq<Seq<char>>, start: (u32, u32)) -> (u32, u32)
    decreases parts.len(),
{
    if parts.len() == 0 {
        start
    } else {
        count_step(counts_of(parts.drop_last(), start), parts.last())
    }
}

/// The branch part of a status report after one more header line. The line
/// is cut at its first opening bracket into names and summary. Names of the
/// form `local...upstream` give the branch, unless the local part mentions
/// `HEAD` or `(no branch)`, which marks a detached head instead, and the
/// upstream, unless it is blank. Names without `...` give the branch, unless
/// they begin with `HEAD` or mention `(no branch)`, which marks a detached
/// head. The summary, without the brackets around it, is a comma-separated
/// list of counts.
pub open spec fn header_step(h: BranchHeaderView, line: Seq<char>) -> BranchHeaderView {
    let cut = position_of(line, '[', 0);
    let names = line.take(cut);
    let summary = line.skip(cut);
    let counts = if cut < line.len() {
        counts_of(
            split_on(trimmed(summary, CharClass::Either('[', ']')), ','),
            (h.ahead, h.behind),
        )
    } else {
        (h.ahead, h.behind)
    };
    match position_of_seq(names, "..."@, 0) {
        Some(k) => {
            let head = names.take(k);
            let rest = names.skip(k + "..."@.len());
            let no_branch = has_seq(head, "(no branch)"@) || has_seq(head, "HEAD"@);
            BranchHeaderView {
                branch: if no_branch {
                    h.branch
                } else {
                    Some(stripped(head))
                },
                upstream: if stripped(rest).len() > 0 {
                    Some(stripped(rest))
                } else {
                    h.upstream
                },
                ahead: counts.0,
                behind: counts.1,
                detached: no_branch || h.detached,
            }
        },
        None => {
            let t = stripped(names);
            let no_branch = "HEAD"@.is_prefix_of(t) || has_seq(t, "(no branch)"@);
            BranchHeaderView {
                branch: if !no_branch && t.len() > 0 {
                    Some(t)
                } else {
                    h.branch
                },
                upstream: h.upstream,
                ahead: counts.0,
                behind: counts.1,
                detached: no_branch || h.detached,
            }
        },
    }
}

/// Reads one branch header line of a status report into the five values.
pub fn parse_branch_line(
    line: &[char],
    branch: &mut Option<String>,
    upstream: &mut Option<String>,
    ahead: &mut u32,
    behind: &mut u32,
    detached: &mut bool,
)
    ensures
        header_view(
            *final(branch),
            *final(upstream),
            *final(ahead),
            *final(behind),
            *final(detached),
        ) == header_step(
            header_view(*old(branch), *old(upstream), *old(ahead), *old(behind), *old(detached)),
            line@,
        ),
{
    let cut = find_char(line, '[', 0);
    let names = slice_subrange(line, 0, cut);
    let summary = slice_subrange(line, cut, line.len());
    let dots = chars_of("...");
    match find_seq(names, dots.as_slice(), 0) {
        Some(k) => {
            let head = slice_subrange(names, 0, k);
            let rest = slice_subrange(names, k + dots.len(), names.len());
            let no_branch_mark = chars_of("(no branch)");
            let head_mark = chars_of("HEAD");
            if contains_seq(head, no_branch_mark.as_slice()) || contains_seq(
                head,
                head_mark.as_slice(),
            ) {
                *detached = true;
            } else {
                *branch = Some(string_of(trim(head)));
            }
            let up = trim(rest);
            if up.len() > 0 {
                *upstream = Some(string_of(up));
            }
        },
        None => {
            let t = trim(names);
            let head_mark = chars_of("HEAD");
            let no_branch_mark = chars_of("(no branch)");
            if starts_with(t, head_mark.as_slice()) || contains_seq(
                t,
                no_branch_mark.as_slice(),
            ) {
                *detached = true;
            } else if t.len() > 0 {
                *branch = Some(string_of(t));
            }
        },
    }
    if cut < line.len() {
        let details = trim_class(summary, CharClass::Either('[', ']'));
        let parts = split(details, ',');
        let ahead_mark = chars_of("ahead ");
        let behind_mark = chars_of("behind ");
        let mut a: u32 = *ahead;
        let mut b: u32 = *behind;
        let ghost start = (a, b);
        let ghost all = views(parts@);
        let mut i: usize = 0;
        while i < parts.len()
            invariant
                i <= parts@.len(),
                all == views(parts@),
                ahead_mark@ == "ahead "@,
                behind_mark@ == "behind "@,
                (a, b) == counts_of(all.take(i as int), start),
            decreases parts@.len() - i,
        {
            proof {
                assert(all.take(i + 1).drop_last() =~= all.take(i as int));
                assert(all.take(i + 1).last() == parts@[i as int]@);
            }
            let p = trim(parts[i]);
            match strip_prefix(p, ahead_mark.as_slice()) {
                Some(v) => {
                    match parse_u32(v) {
                        Some(n) => {
                            a = n;
                        },
                        None => {},
                    }
                },
                None => {
                    match strip_prefix(p, behind_mark.as_slice()) {
                        Some(v) => {
                            match parse_u32(v) {
                                Some(n) => {
                                    b = n;
                                },
                                None => {},
                            }
                        },
                        None => {},
                    }
                },
            }
            i += 1;
        }
        proof {
            assert(all.take(parts@.len() as int) =~= all);
        }
        *ahead = a;
        *behind = b;
    }
}

/// The path and, where the text has the form `old -> new`, the earlier path
/// that a path field of a status record names.
pub open spec fn renamed_path(section: Seq<char>) -> (Seq<char>, Option<Seq<char>>) {
    match position_of_seq(section, " -> "@, 0) {
        Some(i) => (without_leading(section.skip(i), " -> "@), Some(section.take(i))),
        None => (section, None),
    }
}

/// Reads the path field of a status record.
pub fn parse_path(path_section: &[char]) -> (r: (String, Option<String>))
    ensures
        (r.0@, r.1.deep_view()) == renamed_path(path_section@),
{
    let arrow = chars_of(" -> ");
    match find_seq(path_section, arrow.as_slice(), 0) {
        Some(i) => {
            let from = slice_subrange(path_section, 0, i);
            let to = trim_start_seq(
                slice_subrange(path_section, i, path_section.len()),
                arrow.as_slice(),
            );
            (string_of(to), Some(string_of(from)))
        },
        None => (string_of(path_section), None),
    }
}

/// What one character of a status code says: nothing where it is a space or
/// a question mark, else the character itself.
pub open spec fn status_flag(c: char) -> Option<Seq<char>> {
    if c == ' ' || c == '?' {
        None
    } else {
        Some(seq![c])
    }
}

/// Reads one character of a status code.
pub fn parse_status_flag(c: char) -> (r: Option<String>)
    ensures
        r.deep_view() == status_flag(c),
{
    if c == ' ' || c == '?' {
        None
    } else {
        let mut text = String::new();
        text.push(c);
        assert(text@ =~= seq![c]);
        Some(text)
    }
}

/// The change that an ordinary status record describes, from the two
/// characters of its code, its path field and, for a rename or copy whose
/// other path came in a record of its own, that earlier path.
pub open spec fn change_of(
    index: char,
    worktree: char,
    section: Seq<char>,
    original: Option<Seq<char>>,
) -> GitFileChangeView {
    GitFileChangeView {
        path: renamed_path(section).0,
        original_path: if original is Some {
            original
        } else {
            renamed_path(section).1
        },
        index_status: status_flag(index),
        worktree_status: status_flag(worktree),
    }
}

/// Builds the change that an ordinary status record describes.
pub fn parse_change(index: char, worktree: char, section: &[char], original: Option<&[char]>) -> (r:
    GitFileChange)
    ensures
        r.deep_view() == change_of(
            index,
            worktree,
            section@,
            match original {
                Some(o) => Some(o@),
                None => None,
            },
        ),
{
    let (path, parsed) = parse_path(section);
    let original_path = match original {
        Some(o) => Some(string_of(o)),
        None => parsed,
    };
    GitFileChange {
        path,
        original_path,
        index_status: parse_status_flag(index),
        worktree_status: parse_status_flag(worktree),
    }
}

/// One thing that a status report tells.
pub enum StatusItem {
    /// A branch header line, without its marker.
    Header(Seq<char>),
    /// The path of an untracked file.
    Untracked(Seq<char>),
    /// A changed file.
    Change(GitFileChangeView),
}

/// What the records from position `i` on tell. An empty record tells
/// nothing. A record that begins with `## ` is a branch header; one that
/// begins with `?? ` names an untracked file, unless the path is empty. Any
/// other record of more than three characters is a change: two characters of
/// status code, one more character, and the path field. Where the code
/// begins with `R` or `C` and another record follows, that record is the
/// path field and the rest of this one the earlier path.
pub open spec fn items_from(records: Seq<Seq<char>>, i: int) -> Seq<StatusItem>
    decreases records.len() - i,
{
    if i < 0 || i >= records.len() {
        Seq::empty()
    } else {
        let e = records[i];
        if e.len() == 0 {
            items_from(records, i + 1)
        } else if "## "@.is_prefix_of(e) {
            seq![StatusItem::Header(e.skip("## "@.len() as int))] + items_from(records, i + 1)
        } else if "?? "@.is_prefix_of(e) {
            if e.len() > "?? "@.len() {
                seq![StatusItem::Untracked(e.skip("?? "@.len() as int))] + items_from(
                    records,
                    i + 1,
                )
            } else {
                items_from(records, i + 1)
            }
        } else if e.len() <= 3 {
            items_from(records, i + 1)
        } else if (e[0] == 'R' || e[0] == 'C') && i + 1 < records.len() {
            seq![StatusItem::Change(change_of(e[0], e[1], records[i + 1], Some(e.skip(3))))]
                + items_from(records, i + 2)
        } else {
            seq![StatusItem::Change(change_of(e[0], e[1], e.skip(3), None))] + items_from(
                records,
                i + 1,
            )
        }
    }
}

/// What a status report tells, in order.
pub open spec fn status_items(output: Seq<char>) -> Seq<StatusItem> {
    items_from(split_on(output, '\0'), 0)
}

/// The branch part of a report that has no header line.
pub open spec fn no_header() -> BranchHeaderView {
    BranchHeaderView { branch: None, upstream: None, ahead: 0, behind: 0, detached: false }
}

/// The branch part that the header lines among the items give.
pub open spec fn header_of(items: Seq<StatusItem>) -> BranchHeaderView
    decreases items.len(),
{
    if items.len() == 0 {
        no_header()
    } else {
        match items.last() {
            StatusItem::Header(line) => header_step(header_of(items.drop_last()), line),
            _ => header_of(items.drop_last()),
        }
    }
}

/// Whether a change is a merge conflict: one of its two statuses is `U`.
pub open spec fn is_conflict(c: GitFileChangeView) -> bool {
    c.index_status == Some(seq!['U']) || c.worktree_status == Some(seq!['U'])
}

/// Whether a change is staged: no conflict, and a status in the index.
pub open spec fn is_staged(c: GitFileChangeView) -> bool {
    !is_conflict(c) && c.index_status is Some
}

/// Whether a change is unstaged: no conflict, and a status in the worktree.
pub open spec fn is_unstaged(c: GitFileChangeView) -> bool {
    !is_conflict(c) && c.worktree_status is Some
}

/// The change that an item holds.
pub open spec fn change_in(item: StatusItem) -> Option<GitFileChangeView> {
    match item {
        StatusItem::Change(c) => Some(c),
        _ => None,
    }
}

/// The changes among the items.
pub open spec fn changes_of(items: Seq<StatusItem>) -> Seq<GitFileChangeView> {
    collect_some(items, |it: StatusItem| change_in(it))
}

/// The staged changes among the items.
pub open spec fn staged_of(items: Seq<StatusItem>) -> Seq<GitFileChangeView> {
    collect_some(
        items,
        |it: StatusItem|
            match it {
                StatusItem::Change(c) if is_staged(c) => Some(c),
                _ => None,
            },
    )
}

/// The unstaged changes among the items.
pub open spec fn unstaged_of(items: Seq<StatusItem>) -> Seq<GitFileChangeView> {
    collect_some(
        items,
        |it: StatusItem|
            match it {
                StatusItem::Change(c) if is_unstaged(c) => Some(c),
                _ => None,
            },
    )
}

/// The conflicts among the items.
pub open spec fn conflicts_of(items: Seq<StatusItem>) -> Seq<GitFileChangeView> {
    collect_some(
        items,
        |it: StatusItem|
            match it {
                StatusItem::Change(c) if is_conflict(c) => Some(c),
                _ => None,
            },
    )
}

/// The untracked paths among the items.
pub open spec fn untracked_of(items: Seq<StatusItem>) -> Seq<Seq<char>> {
    collect_some(
        items,
        |it: StatusItem|
            match it {
                StatusItem::Untracked(p) => Some(p),
                _ => None,
            },
    )
}

/// The status report that the items make up.
pub open spec fn status_of_items(items: Seq<StatusItem>) -> GitStatusView {
    GitStatusView {
        branch: header_of(items).branch,
        upstream: header_of(items).upstream,
        ahead: header_of(items).ahead,
        behind: header_of(items).behind,
        detached: header_of(items).detached,
        staged: staged_of(items),
        unstaged: unstaged_of(items),
        conflicts: conflicts_of(items),
        untracked: untracked_of(items),
        is_clean: staged_of(items).len() == 0 && unstaged_of(items).len() == 0 && untracked_of(
            items,
        ).len() == 0 && conflicts_of(items).len() == 0,
    }
}

/// The status report that NUL-separated porcelain output describes.
pub open spec fn status_of(output: Seq<char>) -> GitStatusView {
    status_of_items(status_items(output))
}

/// How each part of a report grows with one more item.
pub proof fn lemma_status_push(items: Seq<StatusItem>, x: StatusItem)
    ensures
        header_of(items.push(x)) == match x {
            StatusItem::Header(line) => header_step(header_of(items), line),
            _ => header_of(items),
        },
        staged_of(items.push(x)) == match x {
            StatusItem::Change(c) if is_staged(c) => staged_of(items).push(c),
            _ => staged_of(items),
        },
        unstaged_of(items.push(x)) == match x {
            StatusItem::Change(c) if is_unstaged(c) => unstaged_of(items).push(c),
            _ => unstaged_of(items),
        },
        conflicts_of(items.push(x)) == match x {
            StatusItem::Change(c) if is_conflict(c) => conflicts_of(items).push(c),
            _ => conflicts_of(items),
        },
        untracked_of(items.push(x)) == match x {
            StatusItem::Untracked(p) => untracked_of(items).push(p),
            _ => untracked_of(items),
        },
{
    assert(items.push(x).drop_last() =~= items);
}

/// A status code character is `U` exactly where its flag is `U`.
pub proof fn lemma_flag_is_u(c: char)
    ensures
        (status_flag(c) == Some(seq!['U'])) == (c == 'U'),
{
    if status_flag(c) == Some(seq!['U']) {
        assert(seq![c][0] == seq!['U'][0]);
    }
}

/// Reads NUL-separated porcelain status output. Records that tell nothing
/// are passed over.
pub fn parse_status(output: &str) -> (r: GitStatusResponse)
    ensures
        r.deep_view() == status_of(output@),
{
    let text = chars_of(output);
    let records = split(text.as_slice(), '\0');
    let header_mark = chars_of("## ");
    let untracked_mark = chars_of("?? ");
    let mut branch: Option<String> = None;
    let mut upstream: Option<String> = None;
    let mut ahead: u32 = 0;
    let mut behind: u32 = 0;
    let mut detached = false;
    let mut staged: Vec<GitFileChange> = Vec::new();
    let mut unstaged: Vec<GitFileChange> = Vec::new();
    let mut conflicts: Vec<GitFileChange> = Vec::new();
    let mut untracked: Vec<String> = Vec::new();
    let ghost all = views(records@);
    let ghost mut items: Seq<StatusItem> = Seq::empty();
    let mut i: usize = 0;
    proof {
        assert(items + items_from(all, 0) =~= items_from(all, 0));
        assert(staged.deep_view() =~= staged_of(items));
        assert(unstaged.deep_view() =~= unstaged_of(items));
        assert(conflicts.deep_view() =~= conflicts_of(items));
        assert(untracked.deep_view() =~= untracked_of(items));
    }
    while i < records.len()
        invariant
            i <= records@.len(),
            all == views(records@),
            header_mark@ == "## "@,
            untracked_mark@ == "?? "@,
            items + items_from(all, i as int) == items_from(all, 0),
            header_view(branch, upstream, ahead, behind, detached) == header_of(items),
            staged.deep_view() == staged_of(items),
            unstaged.deep_view() == unstaged_of(items),
            conflicts.deep_view() == conflicts_of(items),
            untracked.deep_view() == untracked_of(items),
        decreases records@.len() - i,
    {
        let entry = records[i];
        let ghost e = all[i as int];
        let ghost before = items;
        assert(e == entry@);
        if entry.len() == 0 {
            i += 1;
        } else if let Some(rest) = strip_prefix(entry, header_mark.as_slice()) {
            parse_branch_line(rest, &mut branch, &mut upstream, &mut ahead, &mut behind, &mut detached);
            proof {
                let x = StatusItem::Header(rest@);
                lemma_status_push(before, x);
                items = before.push(x);
                assert(items + items_from(all, i + 1) =~= before + items_from(all, i as int));
            }
            i += 1;
        } else if let Some(path) = strip_prefix(entry, untracked_mark.as_slice()) {
            if path.len() > 0 {
                let ghost listed = untracked.deep_view();
                let name = string_of(path);
                untracked.push(name);
                proof {
                    let x = StatusItem::Untracked(path@);
                    lemma_status_push(before, x);
                    items = before.push(x);
                    assert(untracked.deep_view() =~= listed.push(name@));
                    assert(items + items_from(all, i + 1) =~= before + items_from(all, i as int));
                }
            }
            i += 1;
        } else if entry.len() <= 3 {
            i += 1;
        } else {
            let index = entry[0];
            let worktree = entry[1];
            let tail = slice_subrange(entry, 3, entry.len());
            assert(tail@ == e.skip(3));
            let paired = (index == 'R' || index == 'C') && i + 1 < records.len();
            let section: &[char] = if paired {
                records[i + 1]
            } else {
                tail
            };
            let original: Option<&[char]> = if paired {
                Some(tail)
            } else {
                None
            };
            let ghost c = change_of(
                index,
                worktree,
                section@,
                match original {
                    Some(o) => Some(o@),
                    None => None,
                },
            );
            proof {
                let x = StatusItem::Change(c);
                lemma_status_push(before, x);
                lemma_flag_is_u(index);
                lemma_flag_is_u(worktree);
                items = before.push(x);
                if paired {
                    assert(section@ == all[i + 1]);
                    assert(items + items_from(all, i + 2) =~= before + items_from(all, i as int));
                } else {
                    assert(items + items_from(all, i + 1) =~= before + items_from(all, i as int));
                }
            }
            if index == 'U' || worktree == 'U' {
                let ghost listed = conflicts.deep_view();
                let change = parse_change(index, worktree, section, original);
                conflicts.push(change);
                assert(conflicts.deep_view() =~= listed.push(change.deep_view()));
            } else {
                if index != ' ' && index != '?' {
                    let ghost listed = staged.deep_view();
                    let change = parse_change(index, worktree, section, original);
                    staged.push(change);
                    assert(staged.deep_view() =~= listed.push(change.deep_view()));
                }
                if worktree != ' ' && worktree != '?' {
                    let ghost listed = unstaged.deep_view();
                    let change = parse_change(index, worktree, section, original);
                    unstaged.push(change);
                    assert(unstaged.deep_view() =~= listed.push(change.deep_view()));
                }
            }
            if paired {
                i += 2;
            } else {
                i += 1;
            }
        }
    }
    proof {
        assert(items + Seq::<StatusItem>::empty() =~= items);
    }
    let is_clean = staged.len() == 0 && unstaged.len() == 0 && untracked.len() == 0
        && conflicts.len() == 0;
    GitStatusResponse {
        branch,
        upstream,
        ahead,
        behind,
        detached,
        staged,
        unstaged,
        conflicts,
        untracked,
        is_clean,
    }
}

/// What `f` gives for an item is among what it gives for all of them.
pub proof fn lemma_collect_some_keeps<A, B>(items: Seq<A>, f: spec_fn(A) -> Option<B>, i: int)
    requires
        0 <= i < items.len(),
        f(items[i]) is Some,
    ensures
        collect_some(items, f).contains(f(items[i])->0),
    decreases items.len(),
{
    let before = collect_some(items.drop_last(), f);
    if i == items.len() - 1 {
        match f(items.last()) {
            Some(b) => {
                assert(before.push(b)[before.len() as int] == b);
            },
            None => {},
        }
    } else {
        lemma_collect_some_keeps(items.drop_last(), f, i);
        let b = f(items[i])->0;
        let k = choose|k: int| 0 <= k < before.len() && before[k] == b;
        match f(items.last()) {
            Some(last) => {
                assert(before.push(last)[k] == b);
            },
            None => {},
        }
    }
}

/// Whatever is among the results of `f` is what `f` gives for some item.
pub proof fn lemma_collect_some_source<A, B>(items: Seq<A>, f: spec_fn(A) -> Option<B>, b: B)
    requires
        collect_some(items, f).contains(b),
    ensures
        exists|i: int| 0 <= i < items.len() && f(#[trigger] items[i]) == Some(b),
    decreases items.len(),
{
    if items.len() > 0 {
        let before = collect_some(items.drop_last(), f);
        let all = collect_some(items, f);
        let k = choose|k: int| 0 <= k < all.len() && all[k] == b;
        if k < before.len() {
            assert(before[k] == b);
            lemma_collect_some_source(items.drop_last(), f, b);
            let i = choose|i: int|
                0 <= i < items.drop_last().len() && f(#[trigger] items.drop_last()[i]) == Some(b);
            assert(f(items[i]) == Some(b));
        } else {
            assert(f(items[items.len() - 1]) == Some(b));
        }
    }
}

/// A change that has a status in the index and one in the worktree, neither
/// of them `U`, stands among the staged and among the unstaged changes of
/// the report.
pub proof fn lemma_two_sided_change_listed_twice(output: Seq<char>, c: GitFileChangeView)
    requires
        changes_of(status_items(output)).contains(c),
        c.index_status is Some,
        c.worktree_status is Some,
        !is_conflict(c),
    ensures
        status_of(output).staged.contains(c),
        status_of(output).unstaged.contains(c),
{
    let items = status_items(output);
    lemma_collect_some_source(items, |it: StatusItem| change_in(it), c);
    let i = choose|i: int| 0 <= i < items.len() && change_in(#[trigger] items[i]) == Some(c);
    lemma_collect_some_keeps(
        items,
        |it: StatusItem|
            match it {
                StatusItem::Change(c) if is_staged(c) => Some(c),
                _ => None,
            },
        i,
    );
    lemma_collect_some_keeps(
        items,
        |it: StatusItem|
            match it {
                StatusItem::Change(c) if is_unstaged(c) => Some(c),
                _ => None,
            },
        i,
    );
}

/// A change with `U` as one of its statuses stands among the conflicts of
/// the report, and neither among the staged nor among the unstaged changes.
pub proof fn lemma_conflict_listed_only_as_conflict(output: Seq<char>, c: GitFileChangeView)
    requires
        changes_of(status_items(output)).contains(c),
        is_conflict(c),
    ensures
        status_of(output).conflicts.contains(c),
        !status_of(output).staged.contains(c),
        !status_of(output).unstaged.contains(c),
{
    let items = status_items(output);
    lemma_collect_some_source(items, |it: StatusItem| change_in(it), c);
    let i = choose|i: int| 0 <= i < items.len() && change_in(#[trigger] items[i]) == Some(c);
    lemma_collect_some_keeps(
        items,
        |it: StatusItem|
            match it {
                StatusItem::Change(c) if is_conflict(c) => Some(c),
                _ => None,
            },
        i,
    );
    if staged_of(items).contains(c) {
        lemma_collect_some_source(
            items,
            |it: StatusItem|
                match it {
                    StatusItem::Change(c) if is_staged(c) => Some(c),
                    _ => None,
                },
            c,
        );
    }
    if unstaged_of(items).contains(c) {
        lemma_collect_some_source(
            items,
            |it: StatusItem|
                match it {
                    StatusItem::Change(c) if is_unstaged(c) => Some(c),
                    _ => None,
                },
            c,
        );
    }
}

/// Every listed change is one of the changes of the report: the three lists
/// hold nothing else.
pub proof fn lemma_listed_changes_are_changes(output: Seq<char>, c: GitFileChangeView)
    requires
        status_of(output).staged.contains(c) || status_of(output).unstaged.contains(c)
            || status_of(output).conflicts.contains(c),
    ensures
        changes_of(status_items(output)).contains(c),
{
    let items = status_items(output);
    if staged_of(items).contains(c) {
        lemma_collect_some_source(
            items,
            |it: StatusItem|
                match it {
                    StatusItem::Change(c) if is_staged(c) => Some(c),
                    _ => None,
                },
            c,
        );
    } else if unstaged_of(items).contains(c) {
        lemma_collect_some_source(
            items,
            |it: StatusItem|
                match it {
                    StatusItem::Change(c) if is_unstaged(c) => Some(c),
                    _ => None,
                },
            c,
        );
    } else {
        lemma_collect_some_source(
            items,
            |it: StatusItem|
                match it {
                    StatusItem::Change(c) if is_conflict(c) => Some(c),
                    _ => None,
                },
            c,
        );
    }
    let i = choose|i: int|
        0 <= i < items.len() && (#[trigger] items[i]) == StatusItem::Change(c);
    lemma_collect_some_keeps(items, |it: StatusItem| change_in(it), i);
}

/// No name stands twice among the local branches or twice among the remote
/// ones; the remote names are those that begin with `remotes/`.
pub proof fn lemma_branch_names_are_distinct(ls: Seq<Seq<char>>)
    ensures
        branches_of_lines(ls).local.no_duplicates(),
        branches_of_lines(ls).remote.no_duplicates(),
        forall|k: int|
            0 <= k < branches_of_lines(ls).local.len() ==> !"remotes/"@.is_prefix_of(
                #[trigger] branches_of_lines(ls).local[k],
            ),
        forall|k: int|
            0 <= k < branches_of_lines(ls).remote.len() ==> "remotes/"@.is_prefix_of(
                #[trigger] branches_of_lines(ls).remote[k],
            ),
    decreases ls.len(),
{
    if ls.len() > 0 {
        lemma_branch_names_are_distinct(ls.drop_last());
    }
}

/// The current branch of a listing is the name on its last line that begins
/// with an asterisk, whether or not that name stood on an earlier line.
pub proof fn lemma_last_marked_branch_is_current(ls: Seq<Seq<char>>)
    requires
        ls.len() > 0,
        stripped(ls.last()).len() > 0,
        stripped(ls.last())[0] == '*',
    ensures
        branches_of_lines(ls).current == Some(branch_name_of(ls.last())),
{
}

/// A parser gives one value for one input: two results that meet its
/// contract for the same text are equal in value.
pub proof fn lemma_parsing_is_deterministic(
    output: Seq<char>,
    status: (GitStatusResponse, GitStatusResponse),
    log: (GitLogResponse, GitLogResponse),
    graph: (GitGraphResponse, GitGraphResponse),
    branches: (GitBranchesResponse, GitBranchesResponse),
    stashes: (GitStashList, GitStashList),
    remotes: (GitRemoteList, GitRemoteList),
    details: (GitCommitDetails, GitCommitDetails),
)
    ensures
        status.0.deep_view() == status_of(output) && status.1.deep_view() == status_of(output)
            ==> status.0.deep_view() == status.1.deep_view(),
        log.0.entries.deep_view() == log_of(output) && log.1.entries.deep_view() == log_of(output)
            ==> log.0.entries.deep_view() == log.1.entries.deep_view(),
        graph.0.entries.deep_view() == graph_of(output) && graph.1.entries.deep_view()
            == graph_of(output) ==> graph.0.entries.deep_view() == graph.1.entries.deep_view(),
        branches.0.deep_view() == branches_of(output) && branches.1.deep_view() == branches_of(
            output,
        ) ==> branches.0.deep_view() == branches.1.deep_view(),
        stashes.0.entries.deep_view() == stashes_of(output) && stashes.1.entries.deep_view()
            == stashes_of(output) ==> stashes.0.entries.deep_view()
            == stashes.1.entries.deep_view(),
        remotes.0.remotes.deep_view() == remotes_of(output) && remotes.1.remotes.deep_view()
            == remotes_of(output) ==> remotes.0.remotes.deep_view()
            == remotes.1.remotes.deep_view(),
        details.0.deep_view() == commit_details_of(output) && details.1.deep_view()
            == commit_details_of(output) ==> details.0.deep_view() == details.1.deep_view(),
{
}

/// A report of one ordinary record tells of one change. The change is a
/// conflict exactly where one of the two characters of its status code is
/// `U`; else it is staged where the first character is neither a space nor a
/// question mark, and unstaged where the second is neither.
pub proof fn lemma_single_record_report(e: Seq<char>)
    requires
        !e.contains('\0'),
        e.len() > 3,
        !"## "@.is_prefix_of(e),
        !"?? "@.is_prefix_of(e),
    ensures
        status_items(e) == seq![StatusItem::Change(change_of(e[0], e[1], e.skip(3), None))],
        is_conflict(change_of(e[0], e[1], e.skip(3), None)) <==> e[0] == 'U' || e[1] == 'U',
        status_of(e).conflicts == if e[0] == 'U' || e[1] == 'U' {
            seq![change_of(e[0], e[1], e.skip(3), None)]
        } else {
            Seq::empty()
        },
        status_of(e).staged == if e[0] != 'U' && e[1] != 'U' && e[0] != ' ' && e[0] != '?' {
            seq![change_of(e[0], e[1], e.skip(3), None)]
        } else {
            Seq::empty()
        },
        status_of(e).unstaged == if e[0] != 'U' && e[1] != 'U' && e[1] != ' ' && e[1] != '?' {
            seq![change_of(e[0], e[1], e.skip(3), None)]
        } else {
            Seq::empty()
        },
{
    let c = change_of(e[0], e[1], e.skip(3), None);
    let x = StatusItem::Change(c);
    lemma_position_of(e, '\0', 0);
    assert(position_of(e, '\0', 0) == e.len()) by {
        if position_of(e, '\0', 0) < e.len() {
            assert(e.contains(e[position_of(e, '\0', 0)]));
        }
    }
    assert(e.subrange(0, e.len() as int) =~= e);
    let records = split_on(e, '\0');
    assert(records =~= seq![e]);
    assert(items_from(records, 1) =~= Seq::<StatusItem>::empty());
    assert(items_from(records, 0) =~= seq![x]);
    lemma_flag_is_u(e[0]);
    lemma_flag_is_u(e[1]);
    let none = Seq::<StatusItem>::empty();
    assert(seq![x] =~= none.push(x));
    lemma_status_push(none, x);
    assert(staged_of(none) =~= Seq::<GitFileChangeView>::empty());
    assert(unstaged_of(none) =~= Seq::<GitFileChangeView>::empty());
    assert(conflicts_of(none) =~= Seq::<GitFileChangeView>::empty());
    assert(Seq::<GitFileChangeView>::empty().push(c) =~= seq![c]);
}

} // verus!

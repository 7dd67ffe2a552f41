//! The command-line adapter: the argument vectors it hands to the `lore`
//! binary, how a finished invocation becomes a result, and the best-effort
//! parsers of the CLI's human-readable output.
//!
//! Running the process is the caller's job; everything that decides what to
//! run and what the output means lives here.
use vstd::prelude::*;
use crate::error::{LoreError, Result, prefixed};
use crate::model::{
    Branch, BranchView, ChangeKind, FileChange, FileChangeView, RepoStatus, RepoStatusView, Revision,
    RevisionView, branch_views, change_views, opt_view, revision_views,
};
use crate::text::{
    chars_of, decimal, decimal_text, eq_ignore_ascii_case, join, join_text, signed_decimal, signed_decimal_text,
    string_views, is_text, lines, occurs_at, rfind, rfind_from, spec_eq_ignore_ascii_case,
    spec_rfind, spec_split_on, spec_split_once_ws, spec_strip_prefix, spec_trim, spec_trim_start_char,
    split_lines, split_on, split_once_ws, starts_with_char, string_of, strip_prefix, subvec, trim,
    trim_start_char, views,
};

verus! {

broadcast use vstd::string::group_string_axioms;

// ---------------------------------------------------------------------------
// Specifications of the parsers
// ---------------------------------------------------------------------------

/// The change kind a status line's marker stands for.
pub open spec fn kind_of_marker(m: Seq<char>) -> Option<ChangeKind> {
    if m == "A"@ || m == "added"@ || m == "+"@ {
        Some(ChangeKind::Added)
    } else if m == "M"@ || m == "modified"@ || m == "~"@ {
        Some(ChangeKind::Modified)
    } else if m == "D"@ || m == "deleted"@ || m == "-"@ {
        Some(ChangeKind::Deleted)
    } else if m == "R"@ || m == "renamed"@ {
        Some(ChangeKind::Renamed)
    } else if m == "?"@ || m == "untracked"@ {
        Some(ChangeKind::Untracked)
    } else {
        None
    }
}

/// A status line `<marker><whitespace><path>` read as a change.
pub open spec fn change_of_line(line: Seq<char>, staged: bool) -> Option<FileChangeView> {
    match spec_split_once_ws(line) {
        Some((marker, path)) => match kind_of_marker(marker) {
            Some(kind) => Some(FileChangeView { path: spec_trim(path), kind, staged }),
            None => None,
        },
        None => None,
    }
}

/// A status line `<marker><whitespace><path>` is read by its marker alone,
/// and each marker stands for one kind of change: `A`, `added` or `+` for an
/// addition, `M`, `modified` or `~` for a modification, `D`, `deleted` or `-`
/// for a deletion, `R` or `renamed` for a rename, and `?` or `untracked` for
/// an untracked file. The rest of the line, trimmed, is the path; a line with
/// any other marker, or with no whitespace after the marker, is no change.
/// This is what `parse_change_line` returns, and what `parse_status` reads
/// each line under a changes heading with.
pub proof fn lemma_status_marker_kinds(line: Seq<char>, staged: bool)
    ensures
        spec_split_once_ws(line) is None ==> change_of_line(line, staged) is None,
        spec_split_once_ws(line) matches Some((m, p)) ==> {
            &&& (m == "A"@ || m == "added"@ || m == "+"@) ==> change_of_line(line, staged)
                == Some(FileChangeView { path: spec_trim(p), kind: ChangeKind::Added, staged })
            &&& (m == "M"@ || m == "modified"@ || m == "~"@) ==> change_of_line(line, staged)
                == Some(FileChangeView { path: spec_trim(p), kind: ChangeKind::Modified, staged })
            &&& (m == "D"@ || m == "deleted"@ || m == "-"@) ==> change_of_line(line, staged)
                == Some(FileChangeView { path: spec_trim(p), kind: ChangeKind::Deleted, staged })
            &&& (m == "R"@ || m == "renamed"@) ==> change_of_line(line, staged)
                == Some(FileChangeView { path: spec_trim(p), kind: ChangeKind::Renamed, staged })
            &&& (m == "?"@ || m == "untracked"@) ==> change_of_line(line, staged)
                == Some(FileChangeView { path: spec_trim(p), kind: ChangeKind::Untracked, staged })
            &&& !(m == "A"@ || m == "added"@ || m == "+"@ || m == "M"@ || m == "modified"@ || m == "~"@
                || m == "D"@ || m == "deleted"@ || m == "-"@ || m == "R"@ || m == "renamed"@ || m == "?"@
                || m == "untracked"@) ==> change_of_line(line, staged) is None
        },
{
    if let Some((m, p)) = spec_split_once_ws(line) {
        lemma_marker_classes_disjoint(m);
    }
}

/// The markers of different kinds of change are different texts, so a
/// marker belongs to one kind at most.
proof fn lemma_marker_classes_disjoint(m: Seq<char>)
    ensures
        (m == "A"@ || m == "added"@ || m == "+"@) ==> !(m == "M"@ || m == "modified"@ || m == "~"@ || m == "D"@
            || m == "deleted"@ || m == "-"@ || m == "R"@ || m == "renamed"@ || m == "?"@ || m == "untracked"@),
        (m == "M"@ || m == "modified"@ || m == "~"@) ==> !(m == "D"@ || m == "deleted"@ || m == "-"@ || m == "R"@
            || m == "renamed"@ || m == "?"@ || m == "untracked"@),
        (m == "D"@ || m == "deleted"@ || m == "-"@) ==> !(m == "R"@ || m == "renamed"@ || m == "?"@ || m == "untracked"@),
        (m == "R"@ || m == "renamed"@) ==> !(m == "?"@ || m == "untracked"@),
{
    reveal_strlit("A");
    reveal_strlit("added");
    reveal_strlit("+");
    reveal_strlit("M");
    reveal_strlit("modified");
    reveal_strlit("~");
    reveal_strlit("D");
    reveal_strlit("deleted");
    reveal_strlit("-");
    reveal_strlit("R");
    reveal_strlit("renamed");
    reveal_strlit("?");
    reveal_strlit("untracked");
    // Markers of different kinds differ in length or in their first character.
    assert("A"@.len() == 1 && "A"@[0] == 'A');
    assert("added"@.len() == 5 && "added"@[0] == 'a');
    assert("+"@.len() == 1 && "+"@[0] == '+');
    assert("M"@.len() == 1 && "M"@[0] == 'M');
    assert("modified"@.len() == 8 && "modified"@[0] == 'm');
    assert("~"@.len() == 1 && "~"@[0] == '~');
    assert("D"@.len() == 1 && "D"@[0] == 'D');
    assert("deleted"@.len() == 7 && "deleted"@[0] == 'd');
    assert("-"@.len() == 1 && "-"@[0] == '-');
    assert("R"@.len() == 1 && "R"@[0] == 'R');
    assert("renamed"@.len() == 7 && "renamed"@[0] == 'r');
    assert("?"@.len() == 1 && "?"@[0] == '?');
    assert("untracked"@.len() == 9 && "untracked"@[0] == 'u');
}

/// The view of an optional change.
pub open spec fn opt_change_view(o: Option<FileChange>) -> Option<FileChangeView> {
    match o {
        Some(c) => Some(c@),
        None => None,
    }
}

/// What the status parser has gathered after some lines.
#[verifier::ext_equal]
pub struct StatusScan {
    pub branch: Seq<char>,
    pub revision: Seq<char>,
    pub changes: Seq<FileChangeView>,
    pub in_staged: bool,
}

/// How one line of `lore status` output updates the scan.
pub open spec fn status_step(st: StatusScan, line: Seq<char>) -> StatusScan {
    let t = spec_trim(line);
    match spec_strip_prefix(t, "branch:"@) {
        Some(rest) => StatusScan { branch: spec_trim(rest), ..st },
        None => match spec_strip_prefix(t, "revision:"@) {
            Some(rest) => StatusScan { revision: spec_trim(rest), ..st },
            None => if spec_eq_ignore_ascii_case(t, "staged changes:"@) {
                StatusScan { in_staged: true, ..st }
            } else if spec_eq_ignore_ascii_case(t, "unstaged changes:"@) || spec_eq_ignore_ascii_case(
                t,
                "changes:"@,
            ) {
                StatusScan { in_staged: false, ..st }
            } else {
                match change_of_line(t, st.in_staged) {
                    Some(c) => StatusScan { changes: st.changes.push(c), ..st },
                    None => st,
                }
            },
        },
    }
}

/// The scan after all of `ls`, starting from nothing and outside the staged section.
pub open spec fn status_scan(ls: Seq<Seq<char>>) -> StatusScan
    decreases ls.len(),
{
    if ls.len() == 0 {
        StatusScan { branch: seq![], revision: seq![], changes: seq![], in_staged: false }
    } else {
        status_step(status_scan(ls.drop_last()), ls.last())
    }
}

/// True when `lore status` output makes sense: it names a branch or a change.
pub open spec fn status_recognized(raw: Seq<char>) -> bool {
    let st = status_scan(lines(raw));
    st.branch.len() > 0 || st.changes.len() > 0
}

/// The status read from `lore status` output.
pub open spec fn status_of(raw: Seq<char>) -> RepoStatusView {
    let st = status_scan(lines(raw));
    RepoStatusView {
        repo_id: seq![],
        branch: st.branch,
        revision: st.revision,
        changes: st.changes,
        ahead: 0,
        behind: 0,
    }
}

/// What the log parser has gathered from one block.
#[verifier::ext_equal]
pub struct RevisionScan {
    pub hash: Seq<char>,
    pub message: Seq<char>,
    pub author: Seq<char>,
    pub timestamp: Seq<char>,
    pub parent: Option<Seq<char>>,
}

/// The revision marker of a log line: its text after `revision ` or `commit `.
pub open spec fn revision_marker(t: Seq<char>) -> Option<Seq<char>> {
    match spec_strip_prefix(t, "revision "@) {
        Some(v) => Some(v),
        None => spec_strip_prefix(t, "commit "@),
    }
}

/// How one line of a log block updates the revision being read.
pub open spec fn revision_step(r: RevisionScan, line: Seq<char>) -> RevisionScan {
    let t = spec_trim(line);
    match revision_marker(t) {
        Some(v) => RevisionScan { hash: spec_trim(v), ..r },
        None => match spec_strip_prefix(t, "Author:"@) {
            Some(v) => RevisionScan { author: spec_trim(v), ..r },
            None => match spec_strip_prefix(t, "Date:"@) {
                Some(v) => RevisionScan { timestamp: spec_trim(v), ..r },
                None => match spec_strip_prefix(t, "Parent:"@) {
                    Some(v) => RevisionScan { parent: Some(spec_trim(v)), ..r },
                    None => if t.len() > 0 && r.message.len() == 0 && r.hash.len() > 0 {
                        RevisionScan { message: t, ..r }
                    } else {
                        r
                    },
                },
            },
        },
    }
}

/// The revision read from the lines of one block.
pub open spec fn revision_scan(ls: Seq<Seq<char>>) -> RevisionScan
    decreases ls.len(),
{
    if ls.len() == 0 {
        RevisionScan { hash: seq![], message: seq![], author: seq![], timestamp: seq![], parent: None }
    } else {
        revision_step(revision_scan(ls.drop_last()), ls.last())
    }
}

/// The revision a log block describes, when it names a hash.
pub open spec fn revision_of_block(block: Seq<char>) -> Option<RevisionView> {
    let r = revision_scan(lines(block));
    if r.hash.len() > 0 {
        Some(
            RevisionView {
                hash: r.hash,
                message: r.message,
                author: r.author,
                timestamp: r.timestamp,
                parent: r.parent,
            },
        )
    } else {
        None
    }
}

/// The revisions of a sequence of log blocks, in order.
pub open spec fn revisions_of(blocks: Seq<Seq<char>>) -> Seq<RevisionView>
    decreases blocks.len(),
{
    if blocks.len() == 0 {
        seq![]
    } else {
        match revision_of_block(blocks.last()) {
            Some(r) => revisions_of(blocks.drop_last()).push(r),
            None => revisions_of(blocks.drop_last()),
        }
    }
}

/// The revisions of `lore log` output: blocks separated by a blank line.
pub open spec fn log_of(raw: Seq<char>) -> Seq<RevisionView> {
    revisions_of(spec_split_on(raw, "\n\n"@))
}

/// The branch one line of `lore branch list` output names, if any.
pub open spec fn branch_of_line(line: Seq<char>) -> Option<BranchView> {
    let t = spec_trim(line);
    if t.len() == 0 {
        None
    } else {
        let name = spec_trim(spec_trim_start_char(t, '*'));
        if name.len() > 0 {
            Some(BranchView { name, id: seq![], latest_revision: seq![], is_current: t[0] == '*' })
        } else {
            None
        }
    }
}

/// The branches named by a sequence of lines, in order.
pub open spec fn branches_of(ls: Seq<Seq<char>>) -> Seq<BranchView>
    decreases ls.len(),
{
    if ls.len() == 0 {
        seq![]
    } else {
        match branch_of_line(ls.last()) {
            Some(b) => branches_of(ls.drop_last()).push(b),
            None => branches_of(ls.drop_last()),
        }
    }
}

/// The hash on the first line that reads `revision <hash>`.
pub open spec fn first_revision_line(ls: Seq<Seq<char>>) -> Option<Seq<char>>
    decreases ls.len(),
{
    if ls.len() == 0 {
        None
    } else {
        match spec_strip_prefix(spec_trim(ls[0]), "revision "@) {
            Some(v) => Some(spec_trim(v)),
            None => first_revision_line(ls.drop_first()),
        }
    }
}

/// The text after the last `ID` of a line, when the line holds one.
pub open spec fn repo_id_of_line(line: Seq<char>) -> Option<Seq<char>> {
    let t = spec_trim(line);
    match spec_rfind(t, "ID"@) {
        Some(k) => Some(spec_trim(t.subrange(k + 2, t.len() as int))),
        None => None,
    }
}

/// The repository id on the first line that holds `ID`.
pub open spec fn first_repo_id_line(ls: Seq<Seq<char>>) -> Option<Seq<char>>
    decreases ls.len(),
{
    if ls.len() == 0 {
        None
    } else {
        match repo_id_of_line(ls[0]) {
            Some(v) => Some(v),
            None => first_repo_id_line(ls.drop_first()),
        }
    }
}

// ---------------------------------------------------------------------------
// Parsers
// ---------------------------------------------------------------------------

/// Reads one (already trimmed) status line as a change.
fn change_of(t: &Vec<char>, staged: bool) -> (r: Option<FileChange>)
    ensures
        opt_change_view(r) == change_of_line(t@, staged),
{
    match split_once_ws(t) {
        Some((marker, path)) => {
            let kind = if is_text(&marker, "A") || is_text(&marker, "added") || is_text(&marker, "+") {
                ChangeKind::Added
            } else if is_text(&marker, "M") || is_text(&marker, "modified") || is_text(&marker, "~") {
                ChangeKind::Modified
            } else if is_text(&marker, "D") || is_text(&marker, "deleted") || is_text(&marker, "-") {
                ChangeKind::Deleted
            } else if is_text(&marker, "R") || is_text(&marker, "renamed") {
                ChangeKind::Renamed
            } else if is_text(&marker, "?") || is_text(&marker, "untracked") {
                ChangeKind::Untracked
            } else {
                return None;
            };
            let p = trim(&path);
            Some(FileChange { path: string_of(&p), kind, staged })
        },
        None => None,
    }
}

/// Reads one line of `lore status` output as a change.
pub fn parse_change_line(line: &str, staged: bool) -> (r: Option<FileChange>)
    ensures
        opt_change_view(r) == change_of_line(line@, staged),
{
    let v = chars_of(line);
    change_of(&v, staged)
}

/// Best-effort parser of `lore status` output.
///
/// Fails with a parse error carrying the raw output when it names neither a
/// branch nor a change.
pub fn parse_status(raw: &str) -> (r: Result<RepoStatus>)
    ensures
        match r {
            Ok(s) => status_recognized(raw@) && s@ == status_of(raw@),
            Err(e) => !status_recognized(raw@) && (e matches LoreError::Parse(m) && m@
                == "unrecognized `lore status` output:\n"@ + raw@),
        },
{
    let v = chars_of(raw);
    let ls = split_lines(&v);
    let ghost lsv = views(ls@);
    let mut status = RepoStatus::default();
    let mut in_staged = false;
    let mut i: usize = 0;
    while i < ls.len()
        invariant
            i <= ls.len(),
            lsv == views(ls@),
            lsv == lines(raw@),
            status@.repo_id.len() == 0,
            status.ahead == 0,
            status.behind == 0,
            (StatusScan {
                branch: status@.branch,
                revision: status@.revision,
                changes: status@.changes,
                in_staged,
            }) == status_scan(lsv.subrange(0, i as int)),
        decreases ls.len() - i,
    {
        let ghost prev = StatusScan {
            branch: status@.branch,
            revision: status@.revision,
            changes: status@.changes,
            in_staged,
        };
        let t = trim(&ls[i]);
        match strip_prefix(&t, "branch:") {
            Some(rest) => {
                status.branch = string_of(&trim(&rest));
            },
            None => match strip_prefix(&t, "revision:") {
                Some(rest) => {
                    status.revision = string_of(&trim(&rest));
                },
                None => {
                    if eq_ignore_ascii_case(&t, "staged changes:") {
                        in_staged = true;
                    } else if eq_ignore_ascii_case(&t, "unstaged changes:") || eq_ignore_ascii_case(
                        &t,
                        "changes:",
                    ) {
                        in_staged = false;
                    } else {
                        match change_of(&t, in_staged) {
                            Some(c) => {
                                let ghost before = status.changes@;
                                status.changes.push(c);
                                assert(change_views(status.changes@) =~= change_views(before).push(
                                    c@,
                                ));
                            },
                            None => {},
                        }
                    }
                },
            },
        }
        proof {
            assert(lsv.subrange(0, i + 1).drop_last() =~= lsv.subrange(0, i as int));
            assert(lsv.subrange(0, i + 1).last() == lsv[i as int]);
            assert(lsv[i as int] == ls@[i as int]@);
            assert((StatusScan {
                branch: status@.branch,
                revision: status@.revision,
                changes: status@.changes,
                in_staged,
            }) =~= status_step(prev, lsv[i as int]));
        }
        i += 1;
    }
    proof {
        assert(lsv.subrange(0, ls.len() as int) =~= lsv);
    }
    if status.branch.as_str().is_empty() && status.changes.len() == 0 {
        return Err(LoreError::Parse(prefixed("unrecognized `lore status` output:\n", raw)));
    }
    proof {
        assert(status@.repo_id =~= Seq::<char>::empty());
        assert(status@ =~= status_of(raw@));
    }
    Ok(status)
}

/// Reads the revision one log block describes.
fn revision_of(block: &Vec<char>) -> (r: Option<Revision>)
    ensures
        match r {
            Some(x) => revision_of_block(block@) == Some(x@),
            None => revision_of_block(block@) is None,
        },
{
    let ls = split_lines(block);
    let ghost lsv = views(ls@);
    let mut hash = String::new();
    let mut message = String::new();
    let mut author = String::new();
    let mut timestamp = String::new();
    let mut parent: Option<String> = None;
    let mut i: usize = 0;
    while i < ls.len()
        invariant
            i <= ls.len(),
            lsv == views(ls@),
            lsv == lines(block@),
            (RevisionScan {
                hash: hash@,
                message: message@,
                author: author@,
                timestamp: timestamp@,
                parent: opt_view(parent),
            }) == revision_scan(lsv.subrange(0, i as int)),
        decreases ls.len() - i,
    {
        let ghost prev = RevisionScan {
            hash: hash@,
            message: message@,
            author: author@,
            timestamp: timestamp@,
            parent: opt_view(parent),
        };
        let t = trim(&ls[i]);
        let marker = match strip_prefix(&t, "revision ") {
            Some(v) => Some(v),
            None => strip_prefix(&t, "commit "),
        };
        match marker {
            Some(v) => {
                hash = string_of(&trim(&v));
            },
            None => match strip_prefix(&t, "Author:") {
                Some(v) => {
                    author = string_of(&trim(&v));
                },
                None => match strip_prefix(&t, "Date:") {
                    Some(v) => {
                        timestamp = string_of(&trim(&v));
                    },
                    None => match strip_prefix(&t, "Parent:") {
                        Some(v) => {
                            parent = Some(string_of(&trim(&v)));
                        },
                        None => {
                            if t.len() > 0 && message.as_str().is_empty() && !hash.as_str().is_empty() {
                                message = string_of(&t);
                            }
                        },
                    },
                },
            },
        }
        proof {
            assert(lsv.subrange(0, i + 1).drop_last() =~= lsv.subrange(0, i as int));
            assert(lsv.subrange(0, i + 1).last() == lsv[i as int]);
            assert(lsv[i as int] == ls@[i as int]@);
            assert((RevisionScan {
                hash: hash@,
                message: message@,
                author: author@,
                timestamp: timestamp@,
                parent: opt_view(parent),
            }) =~= revision_step(prev, lsv[i as int]));
        }
        i += 1;
    }
    proof {
        assert(lsv.subrange(0, ls.len() as int) =~= lsv);
    }
    if hash.as_str().is_empty() {
        return None;
    }
    Some(Revision { hash, message, author, timestamp, parent })
}

/// Best-effort parser of `lore log` output: one revision per blank-line
/// separated block that names a hash.
pub fn parse_log(raw: &str) -> (r: Vec<Revision>)
    ensures
        revision_views(r@) == log_of(raw@),
{
    let v = chars_of(raw);
    proof {
        reveal_strlit("\n\n");
    }
    let blocks = split_on(&v, "\n\n");
    let ghost bv = views(blocks@);
    let mut out: Vec<Revision> = Vec::new();
    let mut i: usize = 0;
    while i < blocks.len()
        invariant
            i <= blocks.len(),
            bv == views(blocks@),
            bv == spec_split_on(raw@, "\n\n"@),
            revision_views(out@) == revisions_of(bv.subrange(0, i as int)),
        decreases blocks.len() - i,
    {
        let ghost before = out@;
        match revision_of(&blocks[i]) {
            Some(rev) => {
                out.push(rev);
                assert(revision_views(out@) =~= revision_views(before).push(rev@));
            },
            None => {},
        }
        proof {
            assert(bv.subrange(0, i + 1).drop_last() =~= bv.subrange(0, i as int));
            assert(bv.subrange(0, i + 1).last() == blocks@[i as int]@);
        }
        i += 1;
    }
    proof {
        assert(bv.subrange(0, blocks.len() as int) =~= bv);
    }
    out
}

/// Best-effort parser of `lore branch list` output: one branch per non-blank
/// line, the current one marked with a leading `*`.
pub fn parse_branches(raw: &str) -> (r: Vec<Branch>)
    ensures
        branch_views(r@) == branches_of(lines(raw@)),
{
    let v = chars_of(raw);
    let ls = split_lines(&v);
    let ghost lsv = views(ls@);
    let mut out: Vec<Branch> = Vec::new();
    let mut i: usize = 0;
    while i < ls.len()
        invariant
            i <= ls.len(),
            lsv == views(ls@),
            lsv == lines(raw@),
            branch_views(out@) == branches_of(lsv.subrange(0, i as int)),
        decreases ls.len() - i,
    {
        let ghost before = out@;
        let t = trim(&ls[i]);
        if t.len() > 0 {
            let is_current = starts_with_char(&t, '*');
            let name = trim(&trim_start_char(&t, '*'));
            if name.len() > 0 {
                let b = Branch {
                    name: string_of(&name),
                    id: String::new(),
                    latest_revision: String::new(),
                    is_current,
                };
                out.push(b);
                assert(branch_views(out@) =~= branch_views(before).push(b@));
            }
        }
        proof {
            assert(lsv.subrange(0, i + 1).drop_last() =~= lsv.subrange(0, i as int));
            assert(lsv.subrange(0, i + 1).last() == ls@[i as int]@);
        }
        i += 1;
    }
    proof {
        assert(lsv.subrange(0, ls.len() as int) =~= lsv);
    }
    out
}

/// The hash of the first `revision <hash>` line of command output.
pub fn extract_revision(out: &str) -> (r: Option<String>)
    ensures
        opt_view(r) == first_revision_line(lines(out@)),
{
    let v = chars_of(out);
    let ls = split_lines(&v);
    let ghost lsv = views(ls@);
    let mut i: usize = 0;
    assert(lsv.subrange(0, lsv.len() as int) =~= lsv);
    while i < ls.len()
        invariant
            i <= ls.len(),
            lsv == views(ls@),
            first_revision_line(lines(out@)) == first_revision_line(lsv.subrange(i as int, lsv.len() as int)),
        decreases ls.len() - i,
    {
        let t = trim(&ls[i]);
        assert(lsv.subrange(i as int, lsv.len() as int)[0] == ls@[i as int]@);
        match strip_prefix(&t, "revision ") {
            Some(rest) => {
                return Some(string_of(&trim(&rest)));
            },
            None => {},
        }
        assert(lsv.subrange(i as int, lsv.len() as int).drop_first() =~= lsv.subrange(i + 1, lsv.len() as int));
        i += 1;
    }
    None
}

/// The repository id printed by `lore repository create`: the text after
/// the last `ID` of the first line that holds one.
pub fn extract_repo_id(out: &str) -> (r: Option<String>)
    ensures
        opt_view(r) == first_repo_id_line(lines(out@)),
{
    let v = chars_of(out);
    let ls = split_lines(&v);
    let ghost lsv = views(ls@);
    let id = chars_of("ID");
    let mut i: usize = 0;
    assert(lsv.subrange(0, lsv.len() as int) =~= lsv);
    while i < ls.len()
        invariant
            i <= ls.len(),
            lsv == views(ls@),
            id@ == "ID"@,
            first_repo_id_line(lines(out@)) == first_repo_id_line(lsv.subrange(i as int, lsv.len() as int)),
        decreases ls.len() - i,
    {
        let t = trim(&ls[i]);
        assert(lsv.subrange(i as int, lsv.len() as int)[0] == ls@[i as int]@);
        match rfind(&t, &id) {
            Some(k) => {
                proof {
                    reveal_strlit("ID");
                    assert(id@.len() == 2);
                    lemma_rfind_bound(t@, id@);
                    assert(k + 2 <= t.len());
                }
                let after = subvec(&t, k + 2, t.len());
                return Some(string_of(&trim(&after)));
            },
            None => {},
        }
        assert(lsv.subrange(i as int, lsv.len() as int).drop_first() =~= lsv.subrange(i + 1, lsv.len() as int));
        i += 1;
    }
    None
}

/// An occurrence found by `spec_rfind` lies within the text.
proof fn lemma_rfind_bound(s: Seq<char>, p: Seq<char>)
    ensures
        spec_rfind(s, p) matches Some(k) ==> 0 <= k && k + p.len() <= s.len(),
{
    if p.len() <= s.len() {
        lemma_rfind_from_bound(s, p, s.len() - p.len());
    }
}

proof fn lemma_rfind_from_bound(s: Seq<char>, p: Seq<char>, k: int)
    ensures
        rfind_from(s, p, k) matches Some(j) ==> 0 <= j && j + p.len() <= s.len(),
    decreases k + 1,
{
    if k >= 0 && !occurs_at(s, p, k) {
        lemma_rfind_from_bound(s, p, k - 1);
    }
}

// ---------------------------------------------------------------------------
// The adapter
// ---------------------------------------------------------------------------

/// The adapter that drives the `lore` command-line program.
pub struct CliBackend {
    working_dir: String,
    program: String,
}

/// A string holding a literal.
fn lit(s: &str) -> (r: String)
    ensures
        r@ == s@,
{
    String::from_str(s)
}

/// The arguments of an invocation: fixed leading words, then the given strings.
fn words(lead: Vec<String>, rest: &Vec<String>) -> (r: Vec<String>)
    ensures
        string_views(r@) == string_views(lead@) + string_views(rest@),
{
    let mut r = lead;
    let ghost start = r@;
    let mut i: usize = 0;
    while i < rest.len()
        invariant
            i <= rest.len(),
            string_views(r@) == string_views(start) + string_views(rest@.subrange(0, i as int)),
        decreases rest.len() - i,
    {
        let ghost before = r@;
        r.push(rest[i].clone());
        assert(string_views(r@) =~= string_views(before).push(rest@[i as int]@));
        assert(string_views(rest@.subrange(0, i + 1)) =~= string_views(rest@.subrange(0, i as int)).push(
            rest@[i as int]@,
        ));
        i += 1;
    }
    assert(rest@.subrange(0, rest.len() as int) =~= rest@);
    r
}

/// The message of a failed invocation.
pub open spec fn command_failed_text(
    program: Seq<char>,
    args: Seq<Seq<char>>,
    code: Option<i32>,
    stderr: Seq<char>,
) -> Seq<char> {
    "`"@ + program + " "@ + join(args, " "@) + "` exited "@ + signed_decimal(
        match code {
            Some(c) => c as int,
            None => -1,
        },
    ) + ": "@ + spec_trim(stderr)
}

impl CliBackend {
    /// The working directory every invocation runs in.
    pub closed spec fn spec_working_dir(&self) -> Seq<char> {
        self.working_dir@
    }

    /// The program invoked.
    pub closed spec fn spec_program(&self) -> Seq<char> {
        self.program@
    }

    /// An adapter rooted at `working_dir`, invoking `lore_bin` when given
    /// (the `LORE_BIN` override) and `lore` otherwise.
    pub fn new(working_dir: String, lore_bin: Option<String>) -> (r: Self)
        ensures
            r.spec_working_dir() == working_dir@,
            r.spec_program() == match lore_bin {
                Some(b) => b@,
                None => "lore"@,
            },
    {
        let program = match lore_bin {
            Some(b) => b,
            None => lit("lore"),
        };
        CliBackend { working_dir, program }
    }

    /// The working directory every invocation runs in.
    pub fn working_dir(&self) -> (r: &String)
        ensures
            r@ == self.spec_working_dir(),
    {
        &self.working_dir
    }

    /// The program invoked.
    pub fn program(&self) -> (r: &String)
        ensures
            r@ == self.spec_program(),
    {
        &self.program
    }

    /// The error for an invocation that could not be launched.
    pub fn launch_failure(&self, reason: &str) -> (r: LoreError)
        ensures
            r matches LoreError::CliUnavailable(m) && m@ == self.spec_program() + ": "@ + reason@,
    {
        let mut m = self.program.clone();
        m.append(": ");
        m.append(reason);
        LoreError::CliUnavailable(m)
    }

    /// How a finished invocation becomes a result: its standard output on
    /// success, otherwise a failure naming the command line, the exit code
    /// (`-1` when there is none) and the trimmed standard error.
    pub fn finish_run(
        &self,
        args: &Vec<String>,
        success: bool,
        code: Option<i32>,
        stdout: String,
        stderr: &str,
    ) -> (r: Result<String>)
        ensures
            success ==> r == Ok::<String, LoreError>(stdout),
            !success ==> (r matches Err(LoreError::CommandFailed(m)) && m@ == command_failed_text(
                self.spec_program(),
                string_views(args@),
                code,
                stderr@,
            )),
    {
        if success {
            return Ok(stdout);
        }
        let c: i64 = match code {
            Some(c) => c as i64,
            None => -1,
        };
        let mut m = lit("`");
        m.append(self.program.as_str());
        m.append(" ");
        m.append(join_text(args, " ").as_str());
        m.append("` exited ");
        m.append(signed_decimal_text(c).as_str());
        m.append(": ");
        let e = chars_of(stderr);
        m.append(string_of(&trim(&e)).as_str());
        Err(LoreError::CommandFailed(m))
    }

    /// `lore status`.
    pub fn status_args() -> (r: Vec<String>)
        ensures
            string_views(r@) == seq!["status"@],
    {
        let r = vec![lit("status")];
        assert(string_views(r@) =~= seq!["status"@]);
        r
    }

    /// `lore log --limit <limit>`.
    pub fn log_args(limit: usize) -> (r: Vec<String>)
        ensures
            string_views(r@) == seq!["log"@, "--limit"@, decimal(limit as nat)],
    {
        let r = vec![lit("log"), lit("--limit"), decimal_text(limit as u64)];
        assert(string_views(r@) =~= seq!["log"@, "--limit"@, decimal(limit as nat)]);
        r
    }

    /// `lore branch list`.
    pub fn branches_args() -> (r: Vec<String>)
        ensures
            string_views(r@) == seq!["branch"@, "list"@],
    {
        let r = vec![lit("branch"), lit("list")];
        assert(string_views(r@) =~= seq!["branch"@, "list"@]);
        r
    }

    /// `lore stage <paths...>`.
    pub fn stage_args(paths: &Vec<String>) -> (r: Vec<String>)
        ensures
            string_views(r@) == seq!["stage"@] + string_views(paths@),
    {
        let lead = vec![lit("stage")];
        assert(string_views(lead@) =~= seq!["stage"@]);
        words(lead, paths)
    }

    /// `lore unstage <paths...>`.
    pub fn unstage_args(paths: &Vec<String>) -> (r: Vec<String>)
        ensures
            string_views(r@) == seq!["unstage"@] + string_views(paths@),
    {
        let lead = vec![lit("unstage")];
        assert(string_views(lead@) =~= seq!["unstage"@]);
        words(lead, paths)
    }

    /// `lore commit --message <message>`.
    pub fn commit_args(message: &str) -> (r: Vec<String>)
        ensures
            string_views(r@) == seq!["commit"@, "--message"@, message@],
    {
        let r = vec![lit("commit"), lit("--message"), lit(message)];
        assert(string_views(r@) =~= seq!["commit"@, "--message"@, message@]);
        r
    }

    /// `lore branch <verb> <name>`.
    fn branch_verb_args(verb: &str, name: &str) -> (r: Vec<String>)
        ensures
            string_views(r@) == seq!["branch"@, verb@, name@],
    {
        let r = vec![lit("branch"), lit(verb), lit(name)];
        assert(string_views(r@) =~= seq!["branch"@, verb@, name@]);
        r
    }

    /// `lore branch create <name>`.
    pub fn create_branch_args(name: &str) -> (r: Vec<String>)
        ensures
            string_views(r@) == seq!["branch"@, "create"@, name@],
    {
        Self::branch_verb_args("create", name)
    }

    /// `lore branch switch <name>`.
    pub fn switch_branch_args(name: &str) -> (r: Vec<String>)
        ensures
            string_views(r@) == seq!["branch"@, "switch"@, name@],
    {
        Self::branch_verb_args("switch", name)
    }

    /// `lore branch merge <name>`.
    pub fn merge_branch_args(name: &str) -> (r: Vec<String>)
        ensures
            string_views(r@) == seq!["branch"@, "merge"@, name@],
    {
        Self::branch_verb_args("merge", name)
    }

    /// `lore push`.
    pub fn push_args() -> (r: Vec<String>)
        ensures
            string_views(r@) == seq!["push"@],
    {
        let r = vec![lit("push")];
        assert(string_views(r@) =~= seq!["push"@]);
        r
    }

    /// `lore sync`.
    pub fn sync_args() -> (r: Vec<String>)
        ensures
            string_views(r@) == seq!["sync"@],
    {
        let r = vec![lit("sync")];
        assert(string_views(r@) =~= seq!["sync"@]);
        r
    }

    /// `lore repository create <name> --path <path>`.
    pub fn create_repository_args(path: &str, name: &str) -> (r: Vec<String>)
        ensures
            string_views(r@) == seq!["repository"@, "create"@, name@, "--path"@, path@],
    {
        let r = vec![lit("repository"), lit("create"), lit(name), lit("--path"), lit(path)];
        assert(string_views(r@) =~= seq!["repository"@, "create"@, name@, "--path"@, path@]);
        r
    }

    /// `lore clone <url> <dest>`.
    pub fn clone_args(url: &str, dest: &str) -> (r: Vec<String>)
        ensures
            string_views(r@) == seq!["clone"@, url@, dest@],
    {
        let r = vec![lit("clone"), lit(url), lit(dest)];
        assert(string_views(r@) =~= seq!["clone"@, url@, dest@]);
        r
    }

    /// The revision a `commit` printed, or the empty string.
    pub fn commit_result(out: &str) -> (r: String)
        ensures
            r@ == match first_revision_line(lines(out@)) {
                Some(h) => h,
                None => Seq::<char>::empty(),
            },
    {
        match extract_revision(out) {
            Some(h) => h,
            None => String::new(),
        }
    }

    /// The repository id a `repository create` printed, or the empty string.
    pub fn create_repository_result(out: &str) -> (r: String)
        ensures
            r@ == match first_repo_id_line(lines(out@)) {
                Some(h) => h,
                None => Seq::<char>::empty(),
            },
    {
        match extract_repo_id(out) {
            Some(h) => h,
            None => String::new(),
        }
    }
}

/// The backend the crate is built with: the command-line adapter rooted at
/// `working_dir`.
pub fn default_backend(working_dir: String, lore_bin: Option<String>) -> (r: CliBackend)
    ensures
        r.spec_working_dir() == working_dir@,
        r.spec_program() == match lore_bin {
            Some(b) => b@,
            None => "lore"@,
        },
{
    CliBackend::new(working_dir, lore_bin)
}


} // verus!

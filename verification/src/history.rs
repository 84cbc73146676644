//! The commit log and the page of each commit.

use crate::html::{
    cell, cell_text, header_row, header_row_text, link, link_text, no_attributes, numeric_cell,
    numeric_cell_text, one_attribute, plain_row, plain_row_text, row, row_text, table, table_text,
    wrap, wrapped_text, Tag,
};
use crate::model::{ChangeRecord, ChangeView, CommitRecord, CommitView, EntryKind};
use crate::text::{decimal, decimal_text, lemma_texts_push, texts, trim_ends, trimmed};
use vstd::prelude::*;

verus! {

/// What a commit changes, in numbers.
#[derive(Clone, Copy, Debug, PartialEq, Eq, Structural)]
pub struct DiffStat {
    /// The changed paths that have line counts.
    pub files_changed: usize,
    pub lines_added: u128,
    pub lines_removed: u128,
}

impl ChangeView {
    /// Whether the change is shown at all: changes of directories are not.
    pub open spec fn is_shown(self) -> bool {
        self.entry != EntryKind::Tree
    }

    /// Whether the change counts as a changed file: it is shown and its
    /// content is not binary.
    pub open spec fn is_counted(self) -> bool {
        self.is_shown() && self.counts is Some
    }

    /// The lines the change adds, as far as it is counted.
    pub open spec fn added(self) -> nat {
        if self.is_counted() {
            self.counts->0.insertions as nat
        } else {
            0
        }
    }

    /// The lines the change removes, as far as it is counted.
    pub open spec fn removed(self) -> nat {
        if self.is_counted() {
            self.counts->0.removals as nat
        } else {
            0
        }
    }
}

/// How many of `changes` count as changed files.
pub open spec fn files_changed(changes: Seq<ChangeView>) -> nat
    decreases changes.len(),
{
    if changes.len() == 0 {
        0
    } else {
        files_changed(changes.drop_last()) + if changes.last().is_counted() {
            1nat
        } else {
            0nat
        }
    }
}

/// The lines that `changes` add in all.
pub open spec fn lines_added(changes: Seq<ChangeView>) -> nat
    decreases changes.len(),
{
    if changes.len() == 0 {
        0
    } else {
        lines_added(changes.drop_last()) + changes.last().added()
    }
}

/// The lines that `changes` remove in all.
pub open spec fn lines_removed(changes: Seq<ChangeView>) -> nat
    decreases changes.len(),
{
    if changes.len() == 0 {
        0
    } else {
        lines_removed(changes.drop_last()) + changes.last().removed()
    }
}

/// The numbers of a commit: over all its changes but those of directories,
/// the changed files that have line counts, and the lines added and removed.
pub fn diff_stat(changes: &Vec<ChangeRecord>) -> (stat: DiffStat)
    ensures
        stat.files_changed == files_changed(changes.deep_view()),
        stat.lines_added == lines_added(changes.deep_view()),
        stat.lines_removed == lines_removed(changes.deep_view()),
{
    let mut stat = DiffStat { files_changed: 0, lines_added: 0, lines_removed: 0 };
    let mut i: usize = 0;
    while i < changes.len()
        invariant
            i <= changes.len(),
            stat.files_changed == files_changed(changes.deep_view().take(i as int)),
            stat.lines_added == lines_added(changes.deep_view().take(i as int)),
            stat.lines_removed == lines_removed(changes.deep_view().take(i as int)),
            stat.files_changed <= i,
            stat.lines_added <= i * 0xffff_ffff,
            stat.lines_removed <= i * 0xffff_ffff,
        decreases changes.len() - i,
    {
        proof {
            assert(changes.deep_view().take(i + 1).drop_last() =~= changes.deep_view().take(
                i as int,
            ));
        }
        let change = &changes[i];
        if !change.entry.holds_tree() {
            match change.counts {
                Some(counts) => {
                    stat.files_changed = stat.files_changed + 1;
                    stat.lines_added = stat.lines_added + counts.insertions as u128;
                    stat.lines_removed = stat.lines_removed + counts.removals as u128;
                },
                None => {},
            }
        }
        i = i + 1;
    }
    assert(changes.deep_view().take(changes.len() as int) =~= changes.deep_view());
    stat
}

/// Whether a change is an addition that removes no line: what a path of
/// a tree is when the tree is compared with the empty tree.
pub open spec fn adds_only(change: ChangeView) -> bool {
    change.kind == crate::model::ChangeKind::Addition && change.removed() == 0
}

/// The changed files of a commit are its changes that are shown and have
/// line counts, each counted once; so they are never more than the changes.
pub proof fn lemma_files_changed_is_a_count(changes: Seq<ChangeView>)
    ensures
        files_changed(changes) == changes.filter(|change: ChangeView| change.is_counted()).len(),
        files_changed(changes) <= changes.len(),
    decreases changes.len(),
{
    reveal(Seq::filter);
    if changes.len() > 0 {
        lemma_files_changed_is_a_count(changes.drop_last());
    }
}

/// The numbers of a commit without parent: where every change is an
/// addition that removes no line, as the paths of a tree are when seen
/// from the empty tree, no line is removed in all, every path with line
/// counts is a changed file, and the lines added are those of all paths
/// together.
pub proof fn lemma_root_commit_adds_only(changes: Seq<ChangeView>)
    requires
        forall|i: int| 0 <= i < changes.len() ==> adds_only(#[trigger] changes[i]),
    ensures
        lines_removed(changes) == 0,
        files_changed(changes) == changes.filter(|change: ChangeView| change.is_counted()).len(),
        lines_added(changes) == changes.map_values(|change: ChangeView| change.added()).fold_left(
            0nat,
            |sum: nat, lines: nat| sum + lines,
        ),
    decreases changes.len(),
{
    lemma_files_changed_is_a_count(changes);
    if changes.len() > 0 {
        let before = changes.drop_last();
        lemma_root_commit_adds_only(before);
        assert(changes.map_values(|change: ChangeView| change.added()).drop_last()
            =~= before.map_values(|change: ChangeView| change.added()));
    }
}

/// How many commits of a history of `total` are shown under `limit`.
pub open spec fn shown_count(total: nat, limit: Option<usize>) -> nat {
    match limit {
        Some(most) => if (most as nat) < total {
            most as nat
        } else {
            total
        },
        None => total,
    }
}

/// Where the page of the commit `id` lies, seen from the log.
pub open spec fn commit_page_path(id: Seq<char>) -> Seq<char> {
    "commits/"@ + id + ".html"@
}

/// The row of one commit in the log: time, title linked to the commit's
/// page, author, changed files, lines added, lines removed and id.
pub open spec fn log_row_text(commit: CommitView) -> Seq<char> {
    row_text(
        seq![
            cell_text(commit.author_time.text()),
            cell_text(
                wrapped_text(
                    Tag::Div,
                    Seq::empty(),
                    link_text(commit_page_path(commit.id), trimmed(commit.title)),
                ),
            ),
            cell_text(commit.author_name),
            numeric_cell_text(decimal_text(files_changed(commit.changes))),
            numeric_cell_text("+"@ + decimal_text(lines_added(commit.changes))),
            numeric_cell_text("-"@ + decimal_text(lines_removed(commit.changes))),
            cell_text(commit.id),
        ],
    )
}

/// The last row of a log that was cut short: how many commits it leaves out.
pub open spec fn remaining_row_text(remaining: nat) -> Seq<char> {
    plain_row_text(
        seq![
            "..."@,
            decimal_text(remaining) + " more commits remaining, fetch the repository"@,
            "..."@,
            "..."@,
            "..."@,
            "..."@,
            "..."@,
        ],
    )
}

/// The rows of the commits that are shown, newest first.
pub open spec fn commit_rows(history: Seq<CommitView>, limit: Option<usize>) -> Seq<Seq<char>> {
    history.take(shown_count(history.len(), limit) as int).map_values(
        |commit: CommitView| log_row_text(commit),
    )
}

/// The rows of the log: one for each commit that is shown and, where the
/// limit leaves commits out, one more that says how many.
pub open spec fn log_rows(history: Seq<CommitView>, limit: Option<usize>) -> Seq<Seq<char>> {
    let shown = shown_count(history.len(), limit);
    if shown < history.len() {
        commit_rows(history, limit).push(remaining_row_text((history.len() - shown) as nat))
    } else {
        commit_rows(history, limit)
    }
}

/// The head of the log table.
pub open spec fn log_head_text() -> Seq<char> {
    header_row_text(
        seq!["Time"@, "Commit message"@, "Author"@, "Files"@, "+"@, "-"@, "ID"@],
    )
}

/// The log: a table of `log_rows` under its head.
pub open spec fn log_text(history: Seq<CommitView>, limit: Option<usize>) -> Seq<char> {
    wrapped_text(
        Tag::Div,
        Seq::empty(),
        table_text(seq![("id"@, "log"@)], seq![log_head_text()], log_rows(history, limit)),
    )
}

/// A log of `total` commits under a limit below `total` has one row for each
/// commit up to the limit and a last row that tells how many are left out;
/// under a limit of `total` or more, or under none, it has one row for each
/// commit and no other.
pub proof fn lemma_log_rows(history: Seq<CommitView>, limit: Option<usize>)
    ensures
        limit is Some && (limit->0 as nat) < history.len() ==> {
            &&& log_rows(history, limit).len() == limit->0 + 1
            &&& log_rows(history, limit).last() == remaining_row_text(
                (history.len() - limit->0) as nat,
            )
        },
        limit is None || (limit->0 as nat) >= history.len() ==> log_rows(history, limit).len()
            == history.len(),
        forall|i: int|
            0 <= i < shown_count(history.len(), limit) ==> #[trigger] log_rows(history, limit)[i]
                == log_row_text(history[i]),
{
}

/// `sign` before `n` in decimal.
fn signed(sign: &str, n: u128) -> (text: String)
    ensures
        text@ == sign@ + decimal_text(n as nat),
{
    let mut text = String::from_str(sign);
    text.append(decimal(n).as_str());
    text
}

/// The row of one commit in the log.
pub fn log_row(commit: &CommitRecord) -> (html: String)
    ensures
        html@ == log_row_text(commit@),
{
    let stat = diff_stat(&commit.changes);
    let mut href = String::from_str("commits/");
    href.append(commit.id.as_str());
    href.append(".html");
    let title = wrap(
        Tag::Div,
        &no_attributes(),
        link(href.as_str(), trim_ends(commit.title.as_str())).as_str(),
    );
    let mut cells: Vec<String> = Vec::new();
    cells.push(cell(commit.author_time.format().as_str()));
    cells.push(cell(title.as_str()));
    cells.push(cell(commit.author_name.as_str()));
    cells.push(numeric_cell(decimal(stat.files_changed as u128).as_str()));
    cells.push(numeric_cell(signed("+", stat.lines_added).as_str()));
    cells.push(numeric_cell(signed("-", stat.lines_removed).as_str()));
    cells.push(cell(commit.id.as_str()));
    proof {
        assert(texts(cells@) =~= seq![
            cell_text(commit.author_time.text()),
            cell_text(
                wrapped_text(
                    Tag::Div,
                    Seq::empty(),
                    link_text(commit_page_path(commit.id@), trimmed(commit.title@)),
                ),
            ),
            cell_text(commit.author_name@),
            numeric_cell_text(decimal_text(files_changed(commit.changes.deep_view()))),
            numeric_cell_text("+"@ + decimal_text(lines_added(commit.changes.deep_view()))),
            numeric_cell_text("-"@ + decimal_text(lines_removed(commit.changes.deep_view()))),
            cell_text(commit.id@),
        ]);
    }
    row(&cells)
}

/// The last row of a log that leaves `remaining` commits out.
pub fn remaining_row(remaining: usize) -> (html: String)
    ensures
        html@ == remaining_row_text(remaining as nat),
{
    let mut message = decimal(remaining as u128);
    message.append(" more commits remaining, fetch the repository");
    let mut values: Vec<String> = Vec::new();
    values.push(String::from_str("..."));
    values.push(message);
    values.push(String::from_str("..."));
    values.push(String::from_str("..."));
    values.push(String::from_str("..."));
    values.push(String::from_str("..."));
    values.push(String::from_str("..."));
    proof {
        assert(texts(values@) =~= seq![
            "..."@,
            decimal_text(remaining as nat) + " more commits remaining, fetch the repository"@,
            "..."@,
            "..."@,
            "..."@,
            "..."@,
            "..."@,
        ]);
    }
    plain_row(&values)
}

/// How many commits of `history` are shown under `limit`.
pub fn shown(history: &Vec<CommitRecord>, limit: Option<usize>) -> (count: usize)
    ensures
        count == shown_count(history@.len(), limit),
{
    match limit {
        Some(most) => if most < history.len() {
            most
        } else {
            history.len()
        },
        None => history.len(),
    }
}

/// The log of `history`, which runs from the head along first parents to the
/// root, newest first. Under a limit, only so many commits are shown.
pub fn get_log(history: &Vec<CommitRecord>, log_length: Option<usize>) -> (html: String)
    ensures
        html@ == log_text(history.deep_view(), log_length),
{
    let count = shown(history, log_length);
    let mut rows: Vec<String> = Vec::new();
    let mut i: usize = 0;
    while i < count
        invariant
            i <= count <= history.len(),
            texts(rows@) == history.deep_view().take(i as int).map_values(
                |commit: CommitView| log_row_text(commit),
            ),
        decreases count - i,
    {
        let one = log_row(&history[i]);
        proof {
            lemma_texts_push(rows@, one);
        }
        rows.push(one);
        i = i + 1;
    }
    if count < history.len() {
        let last = remaining_row(history.len() - count);
        proof {
            lemma_texts_push(rows@, last);
        }
        rows.push(last);
    }
    let mut names: Vec<String> = Vec::new();
    names.push(String::from_str("Time"));
    names.push(String::from_str("Commit message"));
    names.push(String::from_str("Author"));
    names.push(String::from_str("Files"));
    names.push(String::from_str("+"));
    names.push(String::from_str("-"));
    names.push(String::from_str("ID"));
    proof {
        assert(texts(names@) =~= seq![
            "Time"@,
            "Commit message"@,
            "Author"@,
            "Files"@,
            "+"@,
            "-"@,
            "ID"@,
        ]);
    }
    let mut head: Vec<String> = Vec::new();
    head.push(header_row(&names));
    proof {
        assert(texts(head@) =~= seq![log_head_text()]);
    }
    let listing = table(&one_attribute("id", "log"), &head, &rows);
    wrap(Tag::Div, &no_attributes(), listing.as_str())
}

} // verus!

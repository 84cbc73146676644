//! The page of one commit: its header, its message, its numbers, a table of
//! the changed paths and the unified diff of each.

use crate::diff::{unified_diff, unified_diff_text, MAX_DIFF_LEN};
use crate::history::{diff_stat, files_changed, lines_added, lines_removed, shown, shown_count};
use crate::html::{
    element, element_text, escape, escaped, leaf, leaf_text, link, link_text, no_attributes,
    one_attribute, plain_row, plain_row_text, table, table_text, wrap, wrapped_text, Bold, Tag,
};
use crate::model::{optional_bytes, ChangeKind, ChangeRecord, ChangeView, CommitRecord, CommitView};
use crate::text::{
    decimal, decimal_text, lemma_decoded_len, lemma_texts_push, repeat, repeated, texts, utf8_text,
};
use vstd::prelude::*;

verus! {

/// The lines of context around each change of a diff.
pub const CONTEXT_LINES: u32 = 5;

/// The page of one commit.
#[derive(Clone, Debug)]
pub struct CommitPage {
    pub id: String,
    /// The first line of the commit's message, which is the page's title.
    pub title: String,
    /// The content of the page.
    pub html: String,
}

/// `content` between `<b>` and `</b>`.
pub open spec fn bold_text(content: Seq<char>) -> Seq<char> {
    "<b>"@ + content + "</b>"@
}

/// The letter that stands for a kind of change.
pub open spec fn marker_text(kind: ChangeKind) -> Seq<char> {
    match kind {
        ChangeKind::Addition => "A"@,
        ChangeKind::Deletion => "D"@,
        ChangeKind::Modification => "M"@,
        ChangeKind::Rewrite => "R"@,
    }
}

/// The text that content is diffed as: what the bytes encode, or nothing
/// where there are no bytes or they are not valid UTF-8.
pub open spec fn content_text(content: Option<Seq<u8>>) -> Seq<char> {
    match content {
        Some(bytes) => if vstd::utf8::valid_utf8(bytes) {
            vstd::utf8::decode_utf8(bytes)
        } else {
            Seq::empty()
        },
        None => Seq::empty(),
    }
}

/// Whether `content` is short enough to be diffed.
pub open spec fn fits(content: Option<Seq<u8>>) -> bool {
    content is Some ==> content->0.len() <= MAX_DIFF_LEN
}

impl ChangeView {
    /// Whether both sides of the change are short enough to be diffed.
    pub open spec fn is_diffable(self) -> bool {
        fits(self.old_content) && fits(self.new_content)
    }

    /// The unified diff of the change.
    pub open spec fn diff_text(self) -> Seq<char> {
        unified_diff_text(
            content_text(self.old_content),
            content_text(self.new_content),
            "\n"@,
            CONTEXT_LINES as int,
        )
    }
}

impl CommitView {
    /// Whether every change of the commit can be diffed.
    pub open spec fn is_diffable(self) -> bool {
        forall|i: int| 0 <= i < self.changes.len() ==> (#[trigger] self.changes[i]).is_diffable()
    }
}

/// The changes that are shown: all but those of directories, in order.
pub open spec fn shown_changes(changes: Seq<ChangeView>) -> Seq<ChangeView>
    decreases changes.len(),
{
    if changes.len() == 0 {
        Seq::empty()
    } else if changes.last().is_shown() {
        shown_changes(changes.drop_last()).push(changes.last())
    } else {
        shown_changes(changes.drop_last())
    }
}

/// The row of one change in the table of changed paths: the marker of its
/// kind, its path linked to its diff further down, the lines it adds and
/// removes, and a bar with one `+` or `-` for each of them.
pub open spec fn stat_row_text(change: ChangeView) -> Seq<char> {
    plain_row_text(
        seq![
            marker_text(change.kind),
            link_text("#"@ + change.new_location, change.new_location),
            "|"@,
            "+"@ + decimal_text(change.added()) + " -"@ + decimal_text(change.removed()),
            repeated("+"@, change.added()) + repeated("-"@, change.removed()),
        ],
    )
}

/// The two lines that name the old and the new path of a change, in an
/// element that carries the new path as its id.
pub open spec fn location_marker_text(change: ChangeView) -> Seq<char> {
    wrapped_text(
        Tag::Span,
        seq![("id"@, change.new_location)],
        "--- "@ + change.old_location + "\n+++ "@ + change.new_location + "\n"@,
    )
}

/// One change in the body of the page: the location marker, then `diff`
/// escaped, both preformatted.
pub open spec fn diff_block_text(change: ChangeView, diff: Seq<char>) -> Seq<char> {
    wrapped_text(Tag::Preformatted, Seq::empty(), location_marker_text(change) + escaped(diff))
}

/// One parent in the header: its id, linked to its page where `linked`.
pub open spec fn parent_text(id: Seq<char>, linked: bool) -> Seq<char> {
    if linked {
        link_text("../commits/"@ + id + ".html"@, id)
    } else {
        id
    }
}

/// The parents in the header, one after another. Only the first can be
/// linked.
pub open spec fn parents_text(ids: Seq<Seq<char>>, link_first: bool) -> Seq<char>
    decreases ids.len(),
{
    if ids.len() == 0 {
        Seq::empty()
    } else {
        parents_text(ids.drop_last(), link_first) + parent_text(
            ids.last(),
            link_first && ids.len() == 1,
        )
    }
}

/// The header of a commit's page: the id linked to the page itself, the
/// parents, the author with the address, and the time.
pub open spec fn header_text(commit: CommitView, link_parent: bool) -> Seq<char> {
    wrapped_text(
        Tag::Div,
        Seq::empty(),
        bold_text("commit "@) + link_text(
            "../commits/"@ + commit.id + ".html"@,
            commit.id + "\n"@,
        ) + bold_text("parents "@) + parents_text(commit.parent_ids, link_parent) + "\n"@
            + bold_text("author "@) + escaped(
            commit.author_name + " <"@ + commit.author_email + ">\n"@,
        ) + bold_text("date "@) + commit.author_time.text() + "\n"@,
    )
}

/// The line that sums a commit up in numbers.
pub open spec fn summary_text(changes: Seq<ChangeView>) -> Seq<char> {
    decimal_text(files_changed(changes)) + " files changed, "@ + decimal_text(
        lines_added(changes),
    ) + " insertions(+), "@ + decimal_text(lines_removed(changes)) + " deletions(-)"@
}

/// The body of a commit's message, or nothing.
pub open spec fn body_text(body: Option<Seq<char>>) -> Seq<char> {
    match body {
        Some(text) => text,
        None => Seq::empty(),
    }
}

/// What stands on a commit's page before the diffs.
pub open spec fn page_head_texts(commit: CommitView, link_parent: bool) -> Seq<Seq<char>> {
    seq![
        wrapped_text(Tag::Preformatted, Seq::empty(), header_text(commit, link_parent)),
        wrapped_text(Tag::Paragraph, Seq::empty(), commit.title),
        wrapped_text(Tag::Paragraph, Seq::empty(), body_text(commit.body)),
        wrapped_text(Tag::Paragraph, Seq::empty(), summary_text(commit.changes)),
        bold_text("Diffstat:"@),
        table_text(
            Seq::empty(),
            Seq::empty(),
            shown_changes(commit.changes).map_values(|change: ChangeView| stat_row_text(change)),
        ),
        leaf_text(Tag::HorizontalRule, Seq::empty()),
    ]
}

/// The content of a commit's page: the head, then the diff of each shown
/// change.
pub open spec fn commit_page_text(commit: CommitView, link_parent: bool) -> Seq<char> {
    element_text(
        Tag::Div.name(),
        seq![("id"@, "content"@)],
        page_head_texts(commit, link_parent) + shown_changes(commit.changes).map_values(
            |change: ChangeView| diff_block_text(change, change.diff_text()),
        ),
    )
}

/// Whether the commit at `position` of a history shown under `limit` links
/// its first parent: it does unless it is the last commit shown under the
/// limit, whose parent has no page.
pub open spec fn links_parent(position: int, limit: Option<usize>) -> bool {
    !(limit is Some && limit->0 == position + 1)
}

/// Whether `content` is short enough to be diffed.
pub fn content_fits(content: &Option<Vec<u8>>) -> (short: bool)
    ensures
        short == fits(optional_bytes(*content)),
{
    match content {
        Some(bytes) => bytes.len() <= MAX_DIFF_LEN,
        None => true,
    }
}

impl ChangeRecord {
    /// Whether both sides of the change are short enough to be diffed.
    pub fn can_be_diffed(&self) -> (short: bool)
        ensures
            short == self@.is_diffable(),
    {
        content_fits(&self.old_content) && content_fits(&self.new_content)
    }
}

impl CommitRecord {
    /// Whether every change of the commit can be diffed.
    pub fn can_be_diffed(&self) -> (short: bool)
        ensures
            short == self@.is_diffable(),
    {
        let mut i: usize = 0;
        while i < self.changes.len()
            invariant
                i <= self.changes.len(),
                forall|k: int| 0 <= k < i ==> (#[trigger] self@.changes[k]).is_diffable(),
            decreases self.changes.len() - i,
        {
            assert(self@.changes[i as int] == self.changes@[i as int]@);
            if !self.changes[i].can_be_diffed() {
                return false;
            }
            i = i + 1;
        }
        true
    }
}

/// Whether every commit of `history` that is shown under `limit` can be
/// diffed.
pub open spec fn shown_are_diffable(history: Seq<CommitView>, limit: Option<usize>) -> bool {
    forall|i: int|
        0 <= i < shown_count(history.len(), limit) ==> (#[trigger] history[i]).is_diffable()
}

/// Whether every commit of `history` that is shown under `log_length` can
/// be diffed.
pub fn history_can_be_diffed(history: &Vec<CommitRecord>, log_length: Option<usize>) -> (short:
    bool)
    ensures
        short == shown_are_diffable(history.deep_view(), log_length),
{
    let count = shown(history, log_length);
    let mut i: usize = 0;
    while i < count
        invariant
            i <= count <= history.len(),
            count == shown_count(history.deep_view().len(), log_length),
            forall|k: int| 0 <= k < i ==> (#[trigger] history.deep_view()[k]).is_diffable(),
        decreases count - i,
    {
        assert(history.deep_view()[i as int] == history@[i as int]@);
        if !history[i].can_be_diffed() {
            return false;
        }
        i = i + 1;
    }
    true
}

/// `content` set in bold.
fn bold(content: &str) -> (html: String)
    ensures
        html@ == bold_text(content@),
{
    Bold::from(content).to_html_string()
}

/// The letter that stands for a kind of change.
pub fn marker(kind: ChangeKind) -> (letter: &'static str)
    ensures
        letter@ == marker_text(kind),
{
    match kind {
        ChangeKind::Addition => "A",
        ChangeKind::Deletion => "D",
        ChangeKind::Modification => "M",
        ChangeKind::Rewrite => "R",
    }
}

/// The text that content is diffed as.
pub fn diffed_text(content: &Option<Vec<u8>>) -> (text: String)
    requires
        fits(optional_bytes(*content)),
    ensures
        text@ == content_text(optional_bytes(*content)),
        text@.len() <= MAX_DIFF_LEN,
{
    match content {
        Some(bytes) => match utf8_text(bytes.as_slice()) {
            Some(text) => {
                proof {
                    lemma_decoded_len(bytes@);
                }
                String::from_str(text)
            },
            None => String::new(),
        },
        None => String::new(),
    }
}

/// The row of one change in the table of changed paths.
pub fn stat_row(change: &ChangeRecord) -> (html: String)
    ensures
        html@ == stat_row_text(change@),
{
    let (added, removed): (u32, u32) = match change.counts {
        Some(counts) => if change.entry.holds_tree() {
            (0, 0)
        } else {
            (counts.insertions, counts.removals)
        },
        None => (0, 0),
    };
    let mut href = String::from_str("#");
    href.append(change.new_location.as_str());
    let mut lines = String::from_str("+");
    lines.append(decimal(added as u128).as_str());
    lines.append(" -");
    lines.append(decimal(removed as u128).as_str());
    let mut bar = repeat("+", added as usize);
    bar.append(repeat("-", removed as usize).as_str());
    let mut values: Vec<String> = Vec::new();
    values.push(String::from_str(marker(change.kind)));
    values.push(link(href.as_str(), change.new_location.as_str()));
    values.push(String::from_str("|"));
    values.push(lines);
    values.push(bar);
    proof {
        assert(texts(values@) =~= seq![
            marker_text(change.kind),
            link_text("#"@ + change.new_location@, change.new_location@),
            "|"@,
            "+"@ + decimal_text(change@.added()) + " -"@ + decimal_text(change@.removed()),
            repeated("+"@, change@.added()) + repeated("-"@, change@.removed()),
        ]);
    }
    plain_row(&values)
}

/// One change in the body of the page, given its unified diff.
pub fn diff_block(change: &ChangeRecord, diff: &str) -> (html: String)
    ensures
        html@ == diff_block_text(change@, diff@),
{
    let mut names = String::from_str("--- ");
    names.append(change.old_location.as_str());
    names.append("\n+++ ");
    names.append(change.new_location.as_str());
    names.append("\n");
    let mut block = wrap(
        Tag::Span,
        &one_attribute("id", change.new_location.as_str()),
        names.as_str(),
    );
    block.append(escape(diff).as_str());
    wrap(Tag::Preformatted, &no_attributes(), block.as_str())
}

/// One change in the body of the page: its unified diff under its location
/// marker.
pub fn change_block(change: &ChangeRecord) -> (html: String)
    requires
        change@.is_diffable(),
    ensures
        html@ == diff_block_text(change@, change@.diff_text()),
{
    let before = diffed_text(&change.old_content);
    let after = diffed_text(&change.new_content);
    let diff = unified_diff(before.as_str(), after.as_str(), "\n", CONTEXT_LINES);
    diff_block(change, diff.as_str())
}

/// The parents in the header.
pub fn parents(ids: &Vec<String>, link_first: bool) -> (html: String)
    ensures
        html@ == parents_text(ids.deep_view(), link_first),
{
    let mut html = String::new();
    let mut i: usize = 0;
    while i < ids.len()
        invariant
            i <= ids.len(),
            html@ == parents_text(ids.deep_view().take(i as int), link_first),
        decreases ids.len() - i,
    {
        proof {
            assert(ids.deep_view().take(i + 1).drop_last() =~= ids.deep_view().take(i as int));
        }
        let id = ids[i].as_str();
        if link_first && i == 0 {
            let mut href = String::from_str("../commits/");
            href.append(id);
            href.append(".html");
            html.append(link(href.as_str(), id).as_str());
        } else {
            html.append(id);
        }
        i = i + 1;
    }
    assert(ids.deep_view().take(ids.len() as int) =~= ids.deep_view());
    html
}

/// The header of a commit's page.
pub fn header(commit: &CommitRecord, link_parent: bool) -> (html: String)
    ensures
        html@ == header_text(commit@, link_parent),
{
    let mut href = String::from_str("../commits/");
    href.append(commit.id.as_str());
    href.append(".html");
    let mut id_line = String::from_str(commit.id.as_str());
    id_line.append("\n");
    let mut author = String::from_str(commit.author_name.as_str());
    author.append(" <");
    author.append(commit.author_email.as_str());
    author.append(">\n");

    let mut body = bold("commit ");
    body.append(link(href.as_str(), id_line.as_str()).as_str());
    body.append(bold("parents ").as_str());
    body.append(parents(&commit.parent_ids, link_parent).as_str());
    body.append("\n");
    body.append(bold("author ").as_str());
    body.append(escape(author.as_str()).as_str());
    body.append(bold("date ").as_str());
    body.append(commit.author_time.format().as_str());
    body.append("\n");
    wrap(Tag::Div, &no_attributes(), body.as_str())
}

/// The line that sums a commit up in numbers.
pub fn summary(changes: &Vec<ChangeRecord>) -> (line: String)
    ensures
        line@ == summary_text(changes.deep_view()),
{
    let stat = diff_stat(changes);
    let mut line = decimal(stat.files_changed as u128);
    line.append(" files changed, ");
    line.append(decimal(stat.lines_added).as_str());
    line.append(" insertions(+), ");
    line.append(decimal(stat.lines_removed).as_str());
    line.append(" deletions(-)");
    line
}

/// The content of the page of one commit.
pub fn commit_page(commit: &CommitRecord, link_parent: bool) -> (html: String)
    requires
        commit@.is_diffable(),
    ensures
        html@ == commit_page_text(commit@, link_parent),
{
    let mut rows: Vec<String> = Vec::new();
    let mut blocks: Vec<String> = Vec::new();
    let mut i: usize = 0;
    while i < commit.changes.len()
        invariant
            i <= commit.changes.len(),
            commit@.is_diffable(),
            texts(rows@) == shown_changes(commit.changes.deep_view().take(i as int)).map_values(
                |change: ChangeView| stat_row_text(change),
            ),
            texts(blocks@) == shown_changes(commit.changes.deep_view().take(i as int)).map_values(
                |change: ChangeView| diff_block_text(change, change.diff_text()),
            ),
        decreases commit.changes.len() - i,
    {
        let change = &commit.changes[i];
        proof {
            let all = commit.changes.deep_view();
            assert(all.take(i + 1).drop_last() =~= all.take(i as int));
            assert(commit@.changes[i as int].is_diffable());
        }
        if !change.entry.holds_tree() {
            let one_row = stat_row(change);
            let one_block = change_block(change);
            proof {
                lemma_texts_push(rows@, one_row);
                lemma_texts_push(blocks@, one_block);
            }
            rows.push(one_row);
            blocks.push(one_block);
        }
        i = i + 1;
    }
    assert(commit.changes.deep_view().take(commit.changes.len() as int)
        =~= commit.changes.deep_view());

    let body: &str = match &commit.body {
        Some(text) => text.as_str(),
        None => "",
    };
    proof {
        reveal_strlit("");
    }
    let no_rows: Vec<String> = Vec::new();
    let mut children: Vec<String> = Vec::new();
    children.push(
        wrap(Tag::Preformatted, &no_attributes(), header(commit, link_parent).as_str()),
    );
    children.push(wrap(Tag::Paragraph, &no_attributes(), commit.title.as_str()));
    children.push(wrap(Tag::Paragraph, &no_attributes(), body));
    children.push(wrap(Tag::Paragraph, &no_attributes(), summary(&commit.changes).as_str()));
    children.push(bold("Diffstat:"));
    children.push(table(&no_attributes(), &no_rows, &rows));
    children.push(leaf(Tag::HorizontalRule, &no_attributes()));
    let mut j: usize = 0;
    while j < blocks.len()
        invariant
            j <= blocks.len(),
            texts(children@) == page_head_texts(commit@, link_parent) + texts(blocks@).take(
                j as int,
            ),
        decreases blocks.len() - j,
    {
        proof {
            lemma_texts_push(children@, blocks@[j as int]);
        }
        children.push(blocks[j].clone());
        j = j + 1;
    }
    assert(texts(blocks@).take(blocks.len() as int) =~= texts(blocks@));
    element(Tag::Div, &one_attribute("id", "content"), &children)
}

/// The pages of the commits that are shown under `log_length`, newest first,
/// each with the commit's id and title.
pub fn get_commits(history: &Vec<CommitRecord>, log_length: Option<usize>) -> (pages: Vec<
    CommitPage,
>)
    requires
        shown_are_diffable(history.deep_view(), log_length),
    ensures
        pages@.len() == shown_count(history@.len(), log_length),
        forall|i: int|
            0 <= i < pages@.len() ==> {
                &&& (#[trigger] pages@[i]).id@ == history@[i].id@
                &&& pages@[i].title@ == history@[i].title@
                &&& pages@[i].html@ == commit_page_text(history@[i]@, links_parent(i, log_length))
            },
{
    let count = shown(history, log_length);
    let mut pages: Vec<CommitPage> = Vec::new();
    let mut i: usize = 0;
    while i < count
        invariant
            i <= count <= history.len(),
            pages@.len() == i,
            shown_are_diffable(history.deep_view(), log_length),
            count == shown_count(history.deep_view().len(), log_length),
            forall|k: int|
                0 <= k < i ==> {
                    &&& (#[trigger] pages@[k]).id@ == history@[k].id@
                    &&& pages@[k].title@ == history@[k].title@
                    &&& pages@[k].html@ == commit_page_text(
                        history@[k]@,
                        links_parent(k, log_length),
                    )
                },
        decreases count - i,
    {
        let commit = &history[i];
        let linked = match log_length {
            Some(most) => most != i + 1,
            None => true,
        };
        assert(history.deep_view()[i as int] == commit@);
        let html = commit_page(commit, linked);
        pages.push(CommitPage { id: commit.id.clone(), title: commit.title.clone(), html });
        i = i + 1;
    }
    pages
}

} // verus!

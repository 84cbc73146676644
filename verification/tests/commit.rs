use build_html::{
    escape_html, Container, ContainerType, Html, HtmlContainer, HtmlElement, HtmlTag, Table,
};
use gix::diff::blob::unified_diff::{ConsumeBinaryHunk, ContextSize};
use gix::diff::blob::{Algorithm, Diff, InternedInput, UnifiedDiff};
use stagix::commit::{
    change_block, commit_page, diff_block, diffed_text, get_commits, header, marker, parents,
    stat_row, summary,
};
use stagix::diff::unified_diff;
use stagix::model::{ChangeKind, ChangeRecord, CommitRecord, EntryKind, LineCounts, Time};

fn change(
    kind: ChangeKind,
    path: &str,
    counts: Option<(u32, u32)>,
    old: Option<&[u8]>,
    new: Option<&[u8]>,
) -> ChangeRecord {
    ChangeRecord {
        kind,
        entry: EntryKind::Blob,
        old_location: path.to_string(),
        new_location: path.to_string(),
        counts: counts.map(|(insertions, removals)| LineCounts { insertions, removals }),
        old_content: old.map(|bytes| bytes.to_vec()),
        new_content: new.map(|bytes| bytes.to_vec()),
    }
}

fn commit(id: &str, parent_ids: &[&str], changes: Vec<ChangeRecord>) -> CommitRecord {
    CommitRecord {
        id: id.to_string(),
        parent_ids: parent_ids.iter().map(|p| p.to_string()).collect(),
        author_name: "Ann <the> Author".to_string(),
        author_email: "ann@example.org".to_string(),
        author_time: Time { seconds: 1660766698, offset: 7200 },
        title: format!("Commit {id}"),
        body: Some("More words.\n".to_string()),
        changes,
    }
}

fn crate_diff(before: &str, after: &str) -> String {
    let input = InternedInput::new(before, after);
    let diff = Diff::compute(Algorithm::Histogram, &input);
    UnifiedDiff::new(
        &diff,
        &input,
        ConsumeBinaryHunk::new(String::new(), "\n"),
        ContextSize::symmetrical(5),
    )
    .consume()
    .unwrap()
}

fn bold(text: &str) -> String {
    format!("<b>{text}</b>")
}

/// The page as the builders of the crate put it together.
fn built_page(commit: &CommitRecord, link_parent: bool) -> String {
    let mut container =
        Container::new(ContainerType::Div).with_attributes([("id", "content")]);
    let mut pre = HtmlElement::new(HtmlTag::Div);
    pre.add_raw(bold("commit "));
    pre.add_link(format!("../commits/{}.html", commit.id), format!("{}\n", commit.id));
    pre.add_raw(bold("parents "));
    for (j, parent) in commit.parent_ids.iter().enumerate() {
        if j == 0 && link_parent {
            pre.add_link(format!("../commits/{parent}.html"), parent);
        } else {
            pre.add_child(parent.into());
        }
    }
    pre.add_child("\n".into());
    pre.add_raw(bold("author "));
    pre.add_child(
        escape_html(&format!("{} <{}>\n", commit.author_name, commit.author_email)).into(),
    );
    pre.add_raw(bold("date "));
    pre.add_child(commit.author_time.format().into());
    pre.add_child("\n".into());
    container.add_preformatted(pre);
    container.add_paragraph(&commit.title);
    container.add_paragraph(commit.body.clone().unwrap_or_default());

    let mut files = 0;
    let mut added = 0;
    let mut removed = 0;
    let mut table = Table::new();
    let mut diffs = Vec::new();
    for change in &commit.changes {
        if change.entry == EntryKind::Tree {
            continue;
        }
        let (a, r) = match change.counts {
            Some(counts) => {
                files += 1;
                (counts.insertions as usize, counts.removals as usize)
            }
            None => (0, 0),
        };
        added += a;
        removed += r;
        let location = &change.new_location;
        table.add_body_row([
            marker(change.kind).to_string(),
            HtmlElement::new(HtmlTag::Link)
                .with_attribute("href", format!("#{location}"))
                .with_raw(location)
                .to_html_string(),
            "|".to_string(),
            format!("+{a} -{r}"),
            format!("{}{}", "+".repeat(a), "-".repeat(r)),
        ]);
        let names = HtmlElement::new(HtmlTag::Span)
            .with_attribute("id", location)
            .with_raw(format!("--- {}\n+++ {}\n", change.old_location, location))
            .to_html_string();
        let text = |content: &Option<Vec<u8>>| {
            content
                .as_ref()
                .and_then(|bytes| String::from_utf8(bytes.clone()).ok())
                .unwrap_or_default()
        };
        let diff = crate_diff(&text(&change.old_content), &text(&change.new_content));
        diffs.push(names + &escape_html(&diff));
    }
    container.add_paragraph(format!(
        "{files} files changed, {added} insertions(+), {removed} deletions(-)"
    ));
    container.add_raw(bold("Diffstat:"));
    container.add_table(table);
    container.add_html(HtmlElement::new(HtmlTag::HorizontalRule));
    for diff in diffs {
        container.add_preformatted(diff);
    }
    container.to_html_string()
}

#[test]
fn unified_diff_shows_a_changed_line() {
    assert_eq!(
        unified_diff("hello\nworld\n", "hello\nthere\n", "\n", 5),
        "@@ -1,2 +1,2 @@\n hello\n-world\n+there\n"
    );
    assert_eq!(unified_diff("same\n", "same\n", "\n", 5), "");
    assert_eq!(unified_diff("", "", "\n", 5), "");
}

#[test]
fn unified_diff_keeps_the_asked_context() {
    let before = "1\n2\n3\n4\n5\n6\n7\n8\n9\n";
    let after = "1\n2\n3\n4\n5\n6\n7\n8\nnine\n";
    assert_eq!(
        unified_diff(before, after, "\n", 5),
        "@@ -4,6 +4,6 @@\n 4\n 5\n 6\n 7\n 8\n-9\n+nine\n"
    );
    assert_eq!(unified_diff(before, after, "\n", 1), "@@ -8,2 +8,2 @@\n 8\n-9\n+nine\n");
    assert_eq!(unified_diff(before, after, "\n", 5), crate_diff(before, after));
}

#[test]
fn unified_diff_ends_lines_that_lack_the_newline() {
    assert_eq!(unified_diff("a", "b", "\n", 5), "@@ -1,1 +1,1 @@\n-a\n+b\n");
}

#[test]
fn marker_names_the_kind() {
    assert_eq!(marker(ChangeKind::Addition), "A");
    assert_eq!(marker(ChangeKind::Deletion), "D");
    assert_eq!(marker(ChangeKind::Modification), "M");
    assert_eq!(marker(ChangeKind::Rewrite), "R");
}

#[test]
fn diffed_text_is_empty_for_missing_and_binary_content() {
    assert_eq!(diffed_text(&None), "");
    assert_eq!(diffed_text(&Some(vec![0xff, 0xfe, 0x00])), "");
    assert_eq!(diffed_text(&Some("grüß\n".as_bytes().to_vec())), "grüß\n");
    assert_eq!(diffed_text(&Some(Vec::new())), "");
}

#[test]
fn stat_row_shows_counts_and_bar() {
    let one = change(ChangeKind::Modification, "src/a.rs", Some((3, 2)), None, None);
    assert_eq!(
        stat_row(&one),
        "<tr><td>M</td><td><a href=\"#src/a.rs\">src/a.rs</a></td><td>|</td>\
<td>+3 -2</td><td>+++--</td></tr>"
    );
    let binary = change(ChangeKind::Addition, "logo.png", None, None, None);
    assert_eq!(
        stat_row(&binary),
        "<tr><td>A</td><td><a href=\"#logo.png\">logo.png</a></td><td>|</td>\
<td>+0 -0</td><td></td></tr>"
    );
}

#[test]
fn diff_block_escapes_the_diff() {
    let mut one = change(ChangeKind::Rewrite, "new.txt", Some((1, 1)), None, None);
    one.old_location = "old.txt".to_string();
    assert_eq!(
        diff_block(&one, "@@ -1 +1 @@\n-a < b\n+a > b\n"),
        "<pre><span id=\"new.txt\">--- old.txt\n+++ new.txt\n</span>\
@@ -1 +1 @@\n-a &lt; b\n+a &gt; b\n</pre>"
    );
}

#[test]
fn change_block_diffs_the_two_sides() {
    let one = change(
        ChangeKind::Modification,
        "x.txt",
        Some((1, 1)),
        Some(b"hello\nworld\n"),
        Some(b"hello\nthere\n"),
    );
    assert_eq!(
        change_block(&one),
        "<pre><span id=\"x.txt\">--- x.txt\n+++ x.txt\n</span>\
@@ -1,2 +1,2 @@\n hello\n-world\n+there\n</pre>"
    );
}

#[test]
fn change_block_takes_binary_content_for_empty() {
    let added = change(
        ChangeKind::Modification,
        "data",
        None,
        Some(&[0xff, 0x00]),
        Some(b"text\n"),
    );
    assert_eq!(
        change_block(&added),
        "<pre><span id=\"data\">--- data\n+++ data\n</span>@@ -1,0 +1,1 @@\n+text\n</pre>"
    );
    let both = change(ChangeKind::Modification, "data", None, Some(&[0xff]), Some(&[0xfe]));
    assert_eq!(
        change_block(&both),
        "<pre><span id=\"data\">--- data\n+++ data\n</span></pre>"
    );
}

#[test]
fn parents_link_only_the_first() {
    let ids = vec!["fa1".to_string(), "fb2".to_string()];
    assert_eq!(parents(&ids, true), "<a href=\"../commits/fa1.html\">fa1</a>fb2");
    assert_eq!(parents(&ids, false), "fa1fb2");
    assert_eq!(parents(&Vec::new(), true), "");
}

#[test]
fn header_names_commit_parents_author_and_date() {
    let one = commit("abc", &["def"], Vec::new());
    assert_eq!(
        header(&one, true),
        "<div><b>commit </b><a href=\"../commits/abc.html\">abc\n</a>\
<b>parents </b><a href=\"../commits/def.html\">def</a>\n\
<b>author </b>Ann &lt;the&gt; Author &lt;ann@example.org&gt;\n\
<b>date </b>2022-08-17 22:04:58 +0200\n</div>"
    );
}

#[test]
fn summary_counts_files_and_lines() {
    let changes = vec![
        change(ChangeKind::Addition, "a", Some((2, 0)), None, None),
        change(ChangeKind::Modification, "b", Some((1, 4)), None, None),
        change(ChangeKind::Addition, "c.png", None, None, None),
    ];
    assert_eq!(summary(&changes), "2 files changed, 3 insertions(+), 4 deletions(-)");
    assert_eq!(summary(&Vec::new()), "0 files changed, 0 insertions(+), 0 deletions(-)");
}

#[test]
fn commit_page_agrees_with_the_builders_of_the_crate() {
    let mut tree = change(ChangeKind::Addition, "src", None, None, None);
    tree.entry = EntryKind::Tree;
    let mut moved = change(
        ChangeKind::Rewrite,
        "src/new.rs",
        Some((1, 0)),
        Some(b"fn a() {}\n"),
        Some(b"fn a() {}\nfn b<T>() {}\n"),
    );
    moved.old_location = "src/old.rs".to_string();
    let one = commit(
        "abc",
        &["def", "012"],
        vec![
            tree,
            moved,
            change(ChangeKind::Deletion, "gone.txt", Some((0, 2)), Some(b"x\ny\n"), None),
            change(ChangeKind::Addition, "logo.png", None, None, Some(&[0x89, 0x50, 0xff])),
        ],
    );
    for linked in [true, false] {
        assert_eq!(commit_page(&one, linked), built_page(&one, linked));
    }
    let empty = commit("root", &[], Vec::new());
    assert_eq!(commit_page(&empty, true), built_page(&empty, true));
    assert!(commit_page(&empty, true).contains("<table><thead/><tbody/></table><hr/></div>"));
}

#[test]
fn commit_pages_follow_the_limit() {
    let history = vec![
        commit("c3", &["c2"], Vec::new()),
        commit("c2", &["c1"], Vec::new()),
        commit("c1", &[], Vec::new()),
    ];
    let all = get_commits(&history, None);
    assert_eq!(all.len(), 3);
    for (page, commit) in all.iter().zip(&history) {
        assert_eq!(page.id, commit.id);
        assert_eq!(page.title, commit.title);
        assert_eq!(page.html, commit_page(commit, true));
    }
    let two = get_commits(&history, Some(2));
    assert_eq!(two.len(), 2);
    assert_eq!(two[0].html, commit_page(&history[0], true));
    assert_eq!(two[1].html, commit_page(&history[1], false));
    assert!(two[0].html.contains("<a href=\"../commits/c2.html\">c2</a>"));
    assert!(!two[1].html.contains("<a href=\"../commits/c1.html\">c1</a>"));
    assert_eq!(get_commits(&history, Some(0)).len(), 0);
    assert_eq!(get_commits(&history, Some(7)).len(), 3);
}

#[test]
fn three_commits_give_three_rows_and_three_pages() {
    let a = CommitRecord { title: "A".to_string(), ..commit("aaa", &[], Vec::new()) };
    let b = CommitRecord {
        title: "B".to_string(),
        ..commit(
            "bbb",
            &["aaa"],
            vec![change(ChangeKind::Addition, "x.txt", Some((2, 0)), None, Some(b"hello\nworld\n"))],
        )
    };
    let c = CommitRecord {
        title: "C".to_string(),
        ..commit(
            "ccc",
            &["bbb"],
            vec![change(
                ChangeKind::Modification,
                "x.txt",
                Some((1, 1)),
                Some(b"hello\nworld\n"),
                Some(b"hello\nthere\n"),
            )],
        )
    };
    let history = vec![c, b, a];

    let log = stagix::history::get_log(&history, None);
    assert_eq!(log.matches("<tr>").count(), 4);
    assert!(!log.contains("more commits remaining"));
    let at = |id: &str| log.find(&format!("commits/{id}.html")).unwrap();
    assert!(at("ccc") < at("bbb") && at("bbb") < at("aaa"));

    let pages = get_commits(&history, None);
    assert_eq!(pages.len(), 3);
    assert_eq!(pages[0].id, "ccc");
    assert_eq!(pages[1].id, "bbb");
    assert_eq!(pages[2].id, "aaa");
    assert!(pages[2].html.contains("<p>0 files changed, 0 insertions(+), 0 deletions(-)</p>"));
    assert!(pages[1].html.contains("<p>1 files changed, 2 insertions(+), 0 deletions(-)</p>"));
    assert!(pages[1].html.contains("@@ -1,0 +1,2 @@\n+hello\n+world\n"));
    assert!(pages[0].html.contains("<p>1 files changed, 1 insertions(+), 1 deletions(-)</p>"));
    assert!(pages[0].html.contains(
        "<pre><span id=\"x.txt\">--- x.txt\n+++ x.txt\n</span>\
@@ -1,2 +1,2 @@\n hello\n-world\n+there\n</pre>"
    ));
    assert!(pages[0].html.contains("<td>M</td><td><a href=\"#x.txt\">x.txt</a></td>"));
}

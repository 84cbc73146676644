use stagix::history::{diff_stat, get_log, log_row, remaining_row, shown, DiffStat};
use stagix::model::{ChangeKind, ChangeRecord, CommitRecord, EntryKind, LineCounts, Time};

fn change(path: &str, entry: EntryKind, counts: Option<(u32, u32)>) -> ChangeRecord {
    ChangeRecord {
        kind: ChangeKind::Addition,
        entry,
        old_location: path.to_string(),
        new_location: path.to_string(),
        counts: counts.map(|(insertions, removals)| LineCounts { insertions, removals }),
        old_content: None,
        new_content: None,
    }
}

fn commit(id: &str, title: &str, changes: Vec<ChangeRecord>) -> CommitRecord {
    CommitRecord {
        id: id.to_string(),
        parent_ids: Vec::new(),
        author_name: "Ann".to_string(),
        author_email: "ann@example.org".to_string(),
        author_time: Time { seconds: 0, offset: 0 },
        title: title.to_string(),
        body: None,
        changes,
    }
}

fn linear(count: usize) -> Vec<CommitRecord> {
    (0..count)
        .map(|i| commit(&format!("c{i}"), &format!("commit {i}"), Vec::new()))
        .collect()
}

fn rows(html: &str) -> usize {
    html.matches("<tr>").count() - 1
}

const HEAD: &str = "<thead><tr><th>Time</th><th>Commit message</th><th>Author</th>\
<th>Files</th><th>+</th><th>-</th><th>ID</th></tr></thead>";

#[test]
fn diff_stat_adds_up_counted_changes() {
    let changes = vec![
        change("a.txt", EntryKind::Blob, Some((3, 1))),
        change("dir", EntryKind::Tree, Some((100, 100))),
        change("logo.png", EntryKind::Blob, None),
        change("run.sh", EntryKind::BlobExecutable, Some((10, 0))),
        change("link", EntryKind::Link, Some((1, 1))),
    ];
    assert_eq!(
        diff_stat(&changes),
        DiffStat { files_changed: 3, lines_added: 14, lines_removed: 2 }
    );
    assert_eq!(
        diff_stat(&Vec::new()),
        DiffStat { files_changed: 0, lines_added: 0, lines_removed: 0 }
    );
}

#[test]
fn diff_stat_holds_the_largest_counts() {
    let changes = vec![
        change("a", EntryKind::Blob, Some((u32::MAX, u32::MAX))),
        change("b", EntryKind::Blob, Some((u32::MAX, u32::MAX))),
        change("c", EntryKind::Blob, Some((u32::MAX, 0))),
    ];
    let stat = diff_stat(&changes);
    assert_eq!(stat.files_changed, 3);
    assert_eq!(stat.lines_added, 3 * u32::MAX as u128);
    assert_eq!(stat.lines_removed, 2 * u32::MAX as u128);
}

#[test]
fn root_commit_counts_every_path_as_added() {
    let changes = vec![
        change("README", EntryKind::Blob, Some((12, 0))),
        change("src", EntryKind::Tree, None),
        change("src/lib.rs", EntryKind::Blob, Some((40, 0))),
    ];
    assert_eq!(
        diff_stat(&changes),
        DiffStat { files_changed: 2, lines_added: 52, lines_removed: 0 }
    );
}

#[test]
fn shown_is_the_smaller_of_limit_and_length() {
    let history = linear(5);
    assert_eq!(shown(&history, None), 5);
    assert_eq!(shown(&history, Some(0)), 0);
    assert_eq!(shown(&history, Some(2)), 2);
    assert_eq!(shown(&history, Some(5)), 5);
    assert_eq!(shown(&history, Some(9)), 5);
}

#[test]
fn log_row_shows_the_commit() {
    let one = commit(
        "abc",
        "  Initial commit \n",
        vec![change("a.txt", EntryKind::Blob, Some((3, 0)))],
    );
    assert_eq!(
        log_row(&one),
        "<tr><td>1970-01-01 00:00:00 +0000</td>\
<td><div><a href=\"commits/abc.html\">Initial commit</a></div></td>\
<td>Ann</td><td class=\"num\">1</td><td class=\"num\">+3</td>\
<td class=\"num\">-0</td><td>abc</td></tr>"
    );
}

#[test]
fn remaining_row_tells_the_number() {
    assert_eq!(
        remaining_row(3),
        "<tr><td>...</td><td>3 more commits remaining, fetch the repository</td>\
<td>...</td><td>...</td><td>...</td><td>...</td><td>...</td></tr>"
    );
}

#[test]
fn log_of_one_commit() {
    let one = commit("abc", "Initial commit", Vec::new());
    let row = log_row(&one);
    assert_eq!(
        get_log(&vec![one], None),
        format!("<div><table id=\"log\">{HEAD}<tbody>{row}</tbody></table></div>")
    );
}

#[test]
fn log_without_commits_has_an_empty_body() {
    assert_eq!(
        get_log(&Vec::new(), Some(3)),
        format!("<div><table id=\"log\">{HEAD}<tbody/></table></div>")
    );
}

#[test]
fn log_under_a_limit_ends_in_the_remaining_row() {
    let history = linear(5);
    let html = get_log(&history, Some(2));
    assert_eq!(rows(&html), 3);
    assert!(html.contains(&log_row(&history[0])));
    assert!(html.contains(&log_row(&history[1])));
    assert!(!html.contains(&log_row(&history[2])));
    assert!(html.ends_with(&format!("{}</tbody></table></div>", remaining_row(3))));
}

#[test]
fn log_under_a_limit_of_one_less_than_all() {
    let history = linear(5);
    let html = get_log(&history, Some(4));
    assert_eq!(rows(&html), 5);
    assert!(html.ends_with(&format!("{}</tbody></table></div>", remaining_row(1))));
}

#[test]
fn log_without_limit_has_no_remaining_row() {
    let history = linear(5);
    for limit in [None, Some(5), Some(6), Some(usize::MAX)] {
        let html = get_log(&history, limit);
        assert_eq!(rows(&html), 5);
        assert!(!html.contains("more commits remaining"));
        assert!(html.ends_with(&format!("{}</tbody></table></div>", log_row(&history[4]))));
    }
}

#[test]
fn log_keeps_the_order_of_the_history() {
    let history = linear(3);
    let html = get_log(&history, None);
    let first = html.find("commits/c0.html").unwrap();
    let second = html.find("commits/c1.html").unwrap();
    let third = html.find("commits/c2.html").unwrap();
    assert!(first < second && second < third);
}

use build_html::{Container, ContainerType, Html, HtmlContainer, Table};
use stagix::model::{RefRecord, Time};
use stagix::refs::{get_refs, ref_row, refs_table};

fn one(name: &str, seconds: i64, author: &str) -> RefRecord {
    RefRecord {
        name: name.to_string(),
        time: Time { seconds, offset: -18000 },
        author: author.to_string(),
    }
}

fn built(tags: &[RefRecord], branches: &[RefRecord]) -> String {
    let mut container = Container::new(ContainerType::Div);
    let mut table = Table::new()
        .with_attributes([("id", "tags")])
        .with_header_row(["Name", "Last commit time", "Author"]);
    for tag in tags {
        table.add_body_row([tag.name.clone(), tag.time.format(), tag.author.clone()]);
    }
    if !tags.is_empty() {
        container.add_header(2, "Tags");
        container.add_table(table);
    }
    container.add_header(2, "Branches");
    let mut table = Table::new()
        .with_attributes([("id", "branches")])
        .with_header_row(["Name", "Last commit time", "Author"]);
    for branch in branches {
        table.add_body_row([branch.name.clone(), branch.time.format(), branch.author.clone()]);
    }
    container.add_table(table);
    container.to_html_string()
}

#[test]
fn ref_row_shows_name_time_and_author() {
    assert_eq!(
        ref_row(&one("v1.0", 1700000000, "Ann")),
        "<tr><td>v1.0</td><td>2023-11-14 17:13:20 -0500</td><td>Ann</td></tr>"
    );
}

#[test]
fn refs_table_has_head_and_rows() {
    assert_eq!(
        refs_table("tags", &vec![one("v1", 0, "Bo")]),
        "<table id=\"tags\"><thead><tr><th>Name</th><th>Last commit time</th><th>Author</th>\
</tr></thead><tbody><tr><td>v1</td><td>1969-12-31 19:00:00 -0500</td><td>Bo</td></tr>\
</tbody></table>"
    );
}

#[test]
fn refs_without_tags_show_branches_only() {
    let branches = vec![one("main", 1700000000, "Ann")];
    let html = get_refs(&Vec::new(), &branches);
    assert!(html.starts_with("<div><h2>Branches</h2><table id=\"branches\">"));
    assert!(!html.contains("Tags"));
    assert_eq!(html, built(&[], &branches));
}

#[test]
fn refs_agree_with_the_builders_of_the_crate() {
    let tags = vec![one("v1.0", 1600000000, "Ann"), one("v1.1", 1650000000, "Bo")];
    let branches = vec![one("main", 1700000000, "Ann"), one("next", 1700000100, "Cy")];
    let html = get_refs(&tags, &branches);
    assert_eq!(html, built(&tags, &branches));
    assert!(html.starts_with("<div><h2>Tags</h2><table id=\"tags\">"));
    assert_eq!(get_refs(&Vec::new(), &Vec::new()), built(&[], &[]));
}

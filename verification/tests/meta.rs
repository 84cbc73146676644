use build_html::{
    Container, ContainerType, Html, HtmlContainer, HtmlElement, HtmlPage, HtmlTag, Table,
};
use stagix::meta::{find_license, find_readme, holds_file, MetaError, MetaFiles};
use stagix::model::{EntryKind, TreeEntry};
use stagix::Meta;

fn entry(path: &str, kind: EntryKind) -> TreeEntry {
    TreeEntry { path: path.to_string(), kind }
}

fn blobs(paths: &[&str]) -> Vec<TreeEntry> {
    paths.iter().map(|path| entry(path, EntryKind::Blob)).collect()
}

fn meta() -> Meta {
    Meta {
        description: "A <small> tool".to_string(),
        url: "https://example.org/tool.git".to_string(),
        name: "tool".to_string(),
        owner: "Ann".to_string(),
        pages: None,
        readme: Some("README.md".to_string()),
        license: Some("COPYING".to_string()),
    }
}

/// The page as the builders of the crate put it together.
fn built_page(
    meta: &Meta,
    title: &str,
    to_index_root: &str,
    to_repo_root: &str,
    content: &str,
    nav: bool,
) -> String {
    let mut head_table = Table::new();
    head_table.add_body_row([
        &HtmlElement::new(HtmlTag::Div)
            .with_link(
                format!("{to_index_root}index.html"),
                HtmlElement::new(HtmlTag::Div)
                    .with_image_attr(format!("{to_index_root}logo.png"), "logo", [("id", "logo")])
                    .to_html_string(),
            )
            .to_html_string(),
        &Container::new(ContainerType::Div)
            .with_header(1, &meta.name)
            .with_html(
                HtmlElement::new(HtmlTag::Span)
                    .with_attribute("class", "desc")
                    .with_raw(&meta.description),
            )
            .to_html_string(),
    ]);
    if !meta.url.is_empty() {
        head_table.add_body_row(["", &format!("git clone {}", meta.url)]);
    }
    if nav {
        let mut nav = Container::new(ContainerType::Nav)
            .with_link(format!("{to_repo_root}log.html"), "Log")
            .with_raw(" | ")
            .with_link(format!("{to_repo_root}files.html"), "Files")
            .with_raw(" | ")
            .with_link(format!("{to_repo_root}refs.html"), "Refs");
        if let Some(readme) = &meta.readme {
            nav.add_raw(" | ");
            nav.add_link(format!("{to_repo_root}files/{readme}.html"), "README");
        }
        if let Some(license) = &meta.license {
            nav.add_raw(" | ");
            nav.add_link(format!("{to_repo_root}files/{license}.html"), "LICENSE");
        }
        head_table.add_body_row(["", &nav.to_html_string()]);
    }
    HtmlPage::new()
        .with_title(format!("{} - {} - {}", title, meta.name, meta.description))
        .with_stylesheet(format!("{to_index_root}style.css"))
        .with_head_link(format!("{to_index_root}favicon.png"), "icon")
        .with_table(head_table)
        .with_html(HtmlElement::new(HtmlTag::HorizontalRule))
        .with_raw(content)
        .to_html_string()
}

#[test]
fn readme_is_found_at_the_top_only() {
    let entries = vec![
        entry("docs", EntryKind::Tree),
        entry("docs/README", EntryKind::Blob),
        entry("docs/LICENSE", EntryKind::Blob),
        entry("src/README.md", EntryKind::Blob),
    ];
    assert_eq!(find_readme(&entries), None);
    assert_eq!(find_license(&entries), None);
}

#[test]
fn first_name_of_the_list_wins() {
    assert_eq!(find_readme(&blobs(&["README.md", "README"])), Some("README".to_string()));
    assert_eq!(find_readme(&blobs(&["README", "README.md"])), Some("README".to_string()));
    assert_eq!(find_readme(&blobs(&["a", "README.md", "b"])), Some("README.md".to_string()));
    assert_eq!(
        find_license(&blobs(&["COPYING", "LICENSE.md", "LICENSE"])),
        Some("LICENSE".to_string())
    );
    assert_eq!(
        find_license(&blobs(&["COPYING", "LICENSE.md"])),
        Some("LICENSE.md".to_string())
    );
    assert_eq!(find_license(&blobs(&["COPYING"])), Some("COPYING".to_string()));
    assert_eq!(find_license(&blobs(&["README", "copying"])), None);
}

#[test]
fn only_files_are_taken() {
    let entries = vec![
        entry("README", EntryKind::Tree),
        entry("LICENSE", EntryKind::Link),
        entry("COPYING", EntryKind::Commit),
        entry("README.md", EntryKind::BlobExecutable),
    ];
    assert_eq!(find_readme(&entries), Some("README.md".to_string()));
    assert_eq!(find_license(&entries), None);
    assert!(holds_file(&entries, "README.md"));
    assert!(!holds_file(&entries, "README"));
}

#[test]
fn nested_entry_changes_nothing() {
    let mut entries = blobs(&["README.md", "COPYING"]);
    let readme = find_readme(&entries);
    let license = find_license(&entries);
    entries.push(entry("sub/README", EntryKind::Blob));
    entries.push(entry("sub/LICENSE", EntryKind::Blob));
    assert_eq!(find_readme(&entries), readme);
    assert_eq!(find_license(&entries), license);
}

#[test]
fn load_meta_file_trims() {
    assert_eq!(Meta::load_meta_file(&None), None);
    assert_eq!(
        Meta::load_meta_file(&Some("  a tool\n".to_string())),
        Some("a tool".to_string())
    );
    assert_eq!(Meta::load_meta_file(&Some("\n".to_string())), Some(String::new()));
}

#[test]
fn load_fills_every_field() {
    let files = MetaFiles {
        description: Some("A tool.\n".to_string()),
        url: Some(" https://example.org/tool.git ".to_string()),
        owner: None,
        pages: Some("docs/site\n".to_string()),
    };
    let entries = vec![
        entry("LICENSE.md", EntryKind::Blob),
        entry("README", EntryKind::Blob),
        entry("docs", EntryKind::Tree),
    ];
    let meta = Meta::load(&files, "/srv/git/tool.git", &entries).unwrap();
    assert_eq!(meta.name, "tool");
    assert_eq!(meta.description, "A tool.");
    assert_eq!(meta.url, "https://example.org/tool.git");
    assert_eq!(meta.owner, "");
    assert_eq!(meta.pages, Some("docs/site".to_string()));
    assert_eq!(meta.readme, Some("README".to_string()));
    assert_eq!(meta.license, Some("LICENSE.md".to_string()));
}

#[test]
fn load_leaves_missing_files_empty() {
    let files = MetaFiles { description: None, url: None, owner: None, pages: None };
    let meta = Meta::load(&files, "repos/tool", &Vec::new()).unwrap();
    assert_eq!(meta.name, "tool");
    assert_eq!(meta.description, "");
    assert_eq!(meta.url, "");
    assert_eq!(meta.owner, "");
    assert_eq!(meta.pages, None);
    assert_eq!(meta.readme, None);
    assert_eq!(meta.license, None);
}

#[test]
fn missing_files_are_noted() {
    let files = MetaFiles { description: None, url: None, owner: None, pages: None };
    let bare = Meta::load(&files, "repos/tool", &Vec::new()).unwrap();
    assert_eq!(
        bare.diagnostics(),
        vec![
            "no description file found",
            "no url file found",
            "no owner file found",
            "no pages file found",
        ]
    );
    let files = MetaFiles {
        description: Some("A tool.".to_string()),
        url: Some(" \n".to_string()),
        owner: Some("Ann".to_string()),
        pages: Some(String::new()),
    };
    let some = Meta::load(&files, "repos/tool", &Vec::new()).unwrap();
    assert_eq!(some.diagnostics(), vec!["no url file found"]);
    assert!(meta().diagnostics() == vec!["no pages file found"]);
}

#[test]
fn load_fails_without_a_name() {
    let files = MetaFiles { description: None, url: None, owner: None, pages: None };
    assert!(matches!(Meta::load(&files, "/", &Vec::new()), Err(MetaError::NoName)));
    assert!(matches!(Meta::load(&files, "", &Vec::new()), Err(MetaError::NoName)));
    assert!(matches!(Meta::load(&files, "a/..", &Vec::new()), Err(MetaError::NoName)));
}

#[test]
fn navigation_links_the_pages() {
    assert_eq!(
        meta().navigation("../"),
        "<nav><a href=\"../log.html\">Log</a> | <a href=\"../files.html\">Files</a> | \
<a href=\"../refs.html\">Refs</a> | <a href=\"../files/README.md.html\">README</a> | \
<a href=\"../files/COPYING.html\">LICENSE</a></nav>"
    );
    let bare = Meta { readme: None, license: None, ..meta() };
    assert_eq!(
        bare.navigation(""),
        "<nav><a href=\"log.html\">Log</a> | <a href=\"files.html\">Files</a> | \
<a href=\"refs.html\">Refs</a></nav>"
    );
}

#[test]
fn page_frames_the_content() {
    let bare = Meta {
        description: "d".to_string(),
        url: String::new(),
        name: "n".to_string(),
        owner: String::new(),
        pages: None,
        readme: None,
        license: None,
    };
    assert_eq!(
        bare.write_html_content("T", "../", "", "<p>c</p>", false),
        "<!DOCTYPE html><html><head><title>T - n - d</title>\
<link href=\"../style.css\" rel=\"stylesheet\"><link href=\"../favicon.png\" rel=\"icon\">\
</head><body><table><thead/><tbody><tr>\
<td><div><a href=\"../index.html\"><div><img src=\"../logo.png\" alt=\"logo\" id=\"logo\"/>\
</div></a></div></td>\
<td><div><h1>n</h1><span class=\"desc\">d</span></div></td></tr></tbody></table>\
<hr/><p>c</p></body></html>"
    );
}

#[test]
fn page_agrees_with_the_builders_of_the_crate() {
    let full = meta();
    let bare = Meta { url: String::new(), readme: None, license: None, ..meta() };
    for meta in [&full, &bare] {
        for nav in [true, false] {
            for (to_index, to_repo) in [("../", ""), ("../../../", "../../"), ("", "")] {
                assert_eq!(
                    meta.write_html_content("Log", to_index, to_repo, "<div>x</div>", nav),
                    built_page(meta, "Log", to_index, to_repo, "<div>x</div>", nav)
                );
            }
        }
    }
}

#[test]
fn page_in_a_file_finds_its_way_back() {
    let meta = meta();
    let top = meta.write_html_content_to_file("Log", "log.html", "x", true);
    assert_eq!(top.path, "log.html");
    assert_eq!(top.html, meta.write_html_content("Log", "../", "", "x", true));
    let file = meta.write_html_content_to_file("a.rs", "files/src/bin/a.rs.html", "x", true);
    assert_eq!(file.path, "files/src/bin/a.rs.html");
    assert_eq!(
        file.html,
        meta.write_html_content("a.rs", "../../../../", "../../../", "x", true)
    );
    let commit = meta.write_html_content_to_file("T", "commits/abc.html", "x", false);
    assert_eq!(commit.html, meta.write_html_content("T", "../../", "../", "x", false));
}

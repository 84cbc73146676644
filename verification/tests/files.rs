use build_html::{
    escape_html, Container, ContainerType, Html, HtmlContainer, HtmlElement, HtmlTag, Table,
    TableCell, TableRow,
};
use stagix::files::{file_row_and_page, get_files, mode, number_lines, numbered_line};
use stagix::model::{EntryKind, FileEntry};

fn file(path: &str, kind: EntryKind, data: &[u8]) -> FileEntry {
    FileEntry { path: path.to_string(), kind, data: data.to_vec() }
}

/// The listing and the pages as the builders of the crate put them together.
fn built(files: &[FileEntry]) -> (String, Vec<(String, String)>) {
    let mut pages = Vec::new();
    let mut table = Table::new()
        .with_attributes([("id", "files")])
        .with_header_row(["Mode", "Name", "Size"]);
    for entry in files {
        let mode = match entry.kind {
            EntryKind::Blob => "-rw-r--r--",
            EntryKind::BlobExecutable => "-rwxr-xr-x",
            _ => continue,
        };
        let mut content = Container::new(ContainerType::Div)
            .with_attributes([("id", "content")])
            .with_paragraph(format!("{} ({}B)", entry.path, entry.data.len()))
            .with_html(HtmlElement::new(HtmlTag::HorizontalRule));
        let size = if let Ok(text) = std::str::from_utf8(&entry.data) {
            let lines: Vec<String> = text
                .lines()
                .enumerate()
                .map(|(i, line)| {
                    let link = HtmlElement::new(HtmlTag::Link)
                        .with_attribute("id", format!("l{i}"))
                        .with_attribute("href", format!("#l{i}"))
                        .with_attribute("class", "line")
                        .with_child(format!("{: >7} ", i).into())
                        .to_html_string();
                    format!("{}{}", link, escape_html(line))
                })
                .collect();
            content.add_preformatted_attr(lines.join("\n"), [("id", "blob")]);
            format!("{}L", text.lines().count())
        } else {
            content.add_raw("binary file.");
            format!("{}B", entry.data.len())
        };
        pages.push((format!("{}.html", entry.path), content.to_html_string()));
        let path = escape_html(&entry.path);
        table.add_custom_body_row(
            TableRow::new()
                .with_cell(TableCell::default().with_raw(mode))
                .with_cell(
                    TableCell::default().with_html(
                        HtmlElement::new(HtmlTag::Span)
                            .with_link(format!("files/{path}.html"), path)
                            .to_html_string(),
                    ),
                )
                .with_cell(
                    TableCell::default().with_attributes([("class", "num")]).with_raw(size),
                ),
        );
    }
    let listing = Container::new(ContainerType::Div).with_table(table).to_html_string();
    (listing, pages)
}

#[test]
fn mode_tells_executables_apart() {
    assert_eq!(mode(EntryKind::Blob), "-rw-r--r--");
    assert_eq!(mode(EntryKind::BlobExecutable), "-rwxr-xr-x");
}

#[test]
fn numbered_line_anchors_the_number() {
    assert_eq!(
        numbered_line(0, "a < b"),
        "<a id=\"l0\" href=\"#l0\" class=\"line\">      0 </a>a &lt; b"
    );
    assert_eq!(
        numbered_line(12345678, ""),
        "<a id=\"l12345678\" href=\"#l12345678\" class=\"line\">12345678 </a>"
    );
}

#[test]
fn number_lines_counts_from_zero() {
    let lines = vec!["x".to_string(), "y".to_string(), "z".to_string()];
    let numbered = number_lines(&lines);
    assert_eq!(numbered.len(), 3);
    for (i, line) in numbered.iter().enumerate() {
        assert_eq!(*line, numbered_line(i, &lines[i]));
        assert!(line.starts_with(&format!("<a id=\"l{i}\" href=\"#l{i}\"")));
    }
}

#[test]
fn text_file_is_listed_by_lines() {
    let one = file("src/main.rs", EntryKind::Blob, b"fn main() {\n    run();\n}\n");
    let (row, page) = file_row_and_page(&one);
    assert_eq!(
        row,
        "<tr><td>-rw-r--r--</td>\
<td><span><a href=\"files/src/main.rs.html\">src/main.rs</a></span></td>\
<td class=\"num\">3L</td></tr>"
    );
    assert_eq!(
        page,
        "<div id=\"content\"><p>src/main.rs (25B)</p><hr/><pre id=\"blob\">\
<a id=\"l0\" href=\"#l0\" class=\"line\">      0 </a>fn main() {\n\
<a id=\"l1\" href=\"#l1\" class=\"line\">      1 </a>    run();\n\
<a id=\"l2\" href=\"#l2\" class=\"line\">      2 </a>}</pre></div>"
    );
    assert_eq!(page.matches("class=\"line\"").count(), 3);
}

#[test]
fn binary_file_is_listed_by_bytes() {
    let one = file("logo.png", EntryKind::BlobExecutable, &[0x89, 0x50, 0x4e, 0x47, 0xff]);
    let (row, page) = file_row_and_page(&one);
    assert_eq!(
        row,
        "<tr><td>-rwxr-xr-x</td>\
<td><span><a href=\"files/logo.png.html\">logo.png</a></span></td>\
<td class=\"num\">5B</td></tr>"
    );
    assert_eq!(page, "<div id=\"content\"><p>logo.png (5B)</p><hr/>binary file.</div>");
    assert!(!page.contains("class=\"line\""));
}

#[test]
fn empty_file_is_text_without_lines() {
    let one = file("empty", EntryKind::Blob, b"");
    let (row, page) = file_row_and_page(&one);
    assert!(row.ends_with("<td class=\"num\">0L</td></tr>"));
    assert_eq!(page, "<div id=\"content\"><p>empty (0B)</p><hr/><pre id=\"blob\"></pre></div>");
}

#[test]
fn path_is_escaped_in_the_listing() {
    let one = file("a&b.txt", EntryKind::Blob, b"x");
    let (row, page) = file_row_and_page(&one);
    assert!(row.contains("<a href=\"files/a&amp;b.txt.html\">a&amp;b.txt</a>"));
    assert!(page.starts_with("<div id=\"content\"><p>a&b.txt (1B)</p>"));
}

#[test]
fn files_agree_with_the_builders_of_the_crate() {
    let files = vec![
        file("README", EntryKind::Blob, b"Read <me>.\r\nPlease.\n"),
        file("bin", EntryKind::Tree, b""),
        file("bin/run", EntryKind::BlobExecutable, b"#!/bin/sh\nexit 0"),
        file("link", EntryKind::Link, b"README"),
        file("vendor/lib", EntryKind::Commit, b""),
        file("data.bin", EntryKind::Blob, &[0, 159, 146, 150]),
        file("empty", EntryKind::Blob, b""),
        file("umlaut.txt", EntryKind::Blob, "grüße\n\nende".as_bytes()),
    ];
    let (listing, pages) = get_files(&files);
    let (built_listing, built_pages) = built(&files);
    assert_eq!(listing, built_listing);
    assert_eq!(pages.len(), 5);
    assert_eq!(pages.len(), built_pages.len());
    for (page, (path, html)) in pages.iter().zip(&built_pages) {
        assert_eq!(page.path, *path);
        assert_eq!(page.html, *html);
    }
    assert!(!listing.contains("link"));
    assert!(!listing.contains("vendor"));
    assert!(listing.contains("<td class=\"num\">4B</td>"));
    assert!(listing.contains("<td class=\"num\">2L</td>"));
}

#[test]
fn no_files_give_an_empty_listing() {
    let (listing, pages) = get_files(&Vec::new());
    assert!(pages.is_empty());
    assert_eq!(
        listing,
        "<div><table id=\"files\"><thead><tr><th>Mode</th><th>Name</th><th>Size</th></tr>\
</thead><tbody/></table></div>"
    );
}

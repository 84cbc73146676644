//! The file browser: a listing of the files of the head tree and one page
//! for each file.

use crate::html::{
    add_attribute, attribute_views, cell, cell_text, element, element_text, escape, escaped,
    header_row, header_row_text, leaf, leaf_text, link, link_text, no_attributes, numeric_cell,
    numeric_cell_text, one_attribute, row, row_text, table, table_text, wrap, wrapped_text, Tag,
};
use crate::model::{EntryKind, FileEntry, FileView};
use crate::text::{
    decimal, decimal_text, join, joined, lemma_texts_push, lines_of, pad_left, padded_left,
    split_lines, texts, utf8_text,
};
use vstd::prelude::*;

verus! {

/// The width of the line numbers on a file's page.
pub const LINE_NUMBER_WIDTH: usize = 7;

/// The page of one file.
#[derive(Clone, Debug)]
pub struct FilePage {
    /// Where the page lies below the directory of file pages: the file's
    /// path with `.html` after it.
    pub path: String,
    /// The content of the page.
    pub html: String,
}

/// The mode of a file as a directory listing shows it.
pub open spec fn mode_text(kind: EntryKind) -> Seq<char> {
    if kind == EntryKind::BlobExecutable {
        "-rwxr-xr-x"@
    } else {
        "-rw-r--r--"@
    }
}

impl FileView {
    /// Whether the entry is listed: files are, executable or not; links,
    /// submodules and directories are not.
    pub open spec fn is_listed(self) -> bool {
        self.kind.is_file()
    }

    /// Whether the content is text, which is to say valid UTF-8.
    pub open spec fn is_text(self) -> bool {
        vstd::utf8::valid_utf8(self.data)
    }

    /// The lines of a text file.
    pub open spec fn lines(self) -> Seq<Seq<char>> {
        lines_of(vstd::utf8::decode_utf8(self.data))
    }

    /// The size as the listing shows it: the lines of a text file, with `L`
    /// after the number, and the bytes of any other, with `B`.
    pub open spec fn size_text(self) -> Seq<char> {
        if self.is_text() {
            decimal_text(self.lines().len()) + "L"@
        } else {
            decimal_text(self.data.len()) + "B"@
        }
    }
}

/// The files that are listed, in order.
pub open spec fn listed(files: Seq<FileView>) -> Seq<FileView>
    decreases files.len(),
{
    if files.len() == 0 {
        Seq::empty()
    } else if files.last().is_listed() {
        listed(files.drop_last()).push(files.last())
    } else {
        listed(files.drop_last())
    }
}

/// The anchor name of the line at `position`, counted from zero.
pub open spec fn line_anchor(position: nat) -> Seq<char> {
    "l"@ + decimal_text(position)
}

/// One line of a text file: its number, as an anchor that links to itself,
/// and the escaped line.
pub open spec fn line_text(position: nat, line: Seq<char>) -> Seq<char> {
    wrapped_text(
        Tag::Anchor,
        seq![
            ("id"@, line_anchor(position)),
            ("href"@, "#"@ + line_anchor(position)),
            ("class"@, "line"@),
        ],
        padded_left(decimal_text(position), LINE_NUMBER_WIDTH as nat) + " "@,
    ) + escaped(line)
}

/// Every line with its number.
pub open spec fn numbered(lines: Seq<Seq<char>>) -> Seq<Seq<char>> {
    Seq::new(lines.len(), |i: int| line_text(i as nat, lines[i]))
}

/// The body of a file's page: the numbered lines of a text file, or a notice
/// for any other.
pub open spec fn content_block_text(file: FileView) -> Seq<char> {
    if file.is_text() {
        wrapped_text(
            Tag::Preformatted,
            seq![("id"@, "blob"@)],
            joined(numbered(file.lines()), "\n"@),
        )
    } else {
        "binary file."@
    }
}

/// The content of a file's page: the path with the size in bytes, a rule,
/// and the body.
pub open spec fn file_page_text(file: FileView) -> Seq<char> {
    element_text(
        Tag::Div.name(),
        seq![("id"@, "content"@)],
        seq![
            wrapped_text(
                Tag::Paragraph,
                Seq::empty(),
                file.path + " ("@ + decimal_text(file.data.len()) + "B)"@,
            ),
            leaf_text(Tag::HorizontalRule, Seq::empty()),
            content_block_text(file),
        ],
    )
}

/// The row of one file in the listing: mode, path linked to the file's page,
/// and size.
pub open spec fn file_row_text(file: FileView) -> Seq<char> {
    row_text(
        seq![
            cell_text(mode_text(file.kind)),
            cell_text(
                wrapped_text(
                    Tag::Span,
                    Seq::empty(),
                    link_text("files/"@ + escaped(file.path) + ".html"@, escaped(file.path)),
                ),
            ),
            numeric_cell_text(file.size_text()),
        ],
    )
}

/// The head of the listing.
pub open spec fn files_head_text() -> Seq<char> {
    header_row_text(seq!["Mode"@, "Name"@, "Size"@])
}

/// The listing: a table with one row for each listed file.
pub open spec fn listing_text(files: Seq<FileView>) -> Seq<char> {
    wrapped_text(
        Tag::Div,
        Seq::empty(),
        table_text(
            seq![("id"@, "files"@)],
            seq![files_head_text()],
            listed(files).map_values(|file: FileView| file_row_text(file)),
        ),
    )
}

/// A file that is not valid UTF-8 is listed with its size in bytes and shown
/// as a notice; a file that is valid UTF-8 is listed with its number of
/// lines and shown with one anchor for each line, named after the line's
/// position.
pub proof fn lemma_text_and_binary(file: FileView)
    ensures
        !file.is_text() ==> {
            &&& file.size_text() == decimal_text(file.data.len()) + "B"@
            &&& content_block_text(file) == "binary file."@
        },
        file.is_text() ==> {
            &&& file.size_text() == decimal_text(file.lines().len()) + "L"@
            &&& numbered(file.lines()).len() == file.lines().len()
            &&& forall|i: int|
                0 <= i < file.lines().len() ==> #[trigger] numbered(file.lines())[i] == line_text(
                    i as nat,
                    file.lines()[i],
                )
        },
{
}

/// The mode of a file as a directory listing shows it.
pub fn mode(kind: EntryKind) -> (text: &'static str)
    ensures
        text@ == mode_text(kind),
{
    match kind {
        EntryKind::BlobExecutable => "-rwxr-xr-x",
        _ => "-rw-r--r--",
    }
}

/// One line of a text file with its number.
pub fn numbered_line(position: usize, line: &str) -> (html: String)
    ensures
        html@ == line_text(position as nat, line@),
{
    let number = decimal(position as u128);
    let mut anchor = String::from_str("l");
    anchor.append(number.as_str());
    let mut href = String::from_str("#");
    href.append(anchor.as_str());
    let mut label = pad_left(number.as_str(), LINE_NUMBER_WIDTH);
    label.append(" ");
    let mut attributes = one_attribute("id", anchor.as_str());
    add_attribute(&mut attributes, "href", href.as_str());
    add_attribute(&mut attributes, "class", "line");
    proof {
        assert(attribute_views(attributes@) =~= seq![
            ("id"@, line_anchor(position as nat)),
            ("href"@, "#"@ + line_anchor(position as nat)),
            ("class"@, "line"@),
        ]);
    }
    let mut html = wrap(Tag::Anchor, &attributes, label.as_str());
    html.append(escape(line).as_str());
    html
}

/// Every line with its number.
pub fn number_lines(lines: &Vec<String>) -> (out: Vec<String>)
    ensures
        texts(out@) == numbered(texts(lines@)),
{
    let mut out: Vec<String> = Vec::new();
    let mut i: usize = 0;
    while i < lines.len()
        invariant
            i <= lines.len(),
            out@.len() == i,
            forall|k: int|
                0 <= k < i ==> (#[trigger] out@[k])@ == line_text(k as nat, lines@[k]@),
        decreases lines.len() - i,
    {
        out.push(numbered_line(i, lines[i].as_str()));
        i = i + 1;
    }
    out
}

/// The size of a file as the listing shows it, and the body of its page.
fn size_and_block(file: &FileEntry) -> (both: (String, String))
    ensures
        both.0@ == file@.size_text(),
        both.1@ == content_block_text(file@),
{
    match utf8_text(file.data.as_slice()) {
        Some(content) => {
            let lines = split_lines(content);
            let mut size = decimal(lines.len() as u128);
            size.append("L");
            let body = join(&number_lines(&lines), "\n");
            let block = wrap(Tag::Preformatted, &one_attribute("id", "blob"), body.as_str());
            (size, block)
        },
        None => {
            let mut size = decimal(file.data.len() as u128);
            size.append("B");
            (size, String::from_str("binary file."))
        },
    }
}

/// The row of one file in the listing, and the content of its page.
pub fn file_row_and_page(file: &FileEntry) -> (both: (String, String))
    ensures
        both.0@ == file_row_text(file@),
        both.1@ == file_page_text(file@),
{
    let (size, block) = size_and_block(file);

    let mut caption = String::from_str(file.path.as_str());
    caption.append(" (");
    caption.append(decimal(file.data.len() as u128).as_str());
    caption.append("B)");
    let mut children: Vec<String> = Vec::new();
    children.push(wrap(Tag::Paragraph, &no_attributes(), caption.as_str()));
    children.push(leaf(Tag::HorizontalRule, &no_attributes()));
    children.push(block);
    proof {
        assert(texts(children@) =~= seq![
            wrapped_text(
                Tag::Paragraph,
                Seq::empty(),
                file.path@ + " ("@ + decimal_text(file.data@.len()) + "B)"@,
            ),
            leaf_text(Tag::HorizontalRule, Seq::empty()),
            content_block_text(file@),
        ]);
    }
    let page = element(Tag::Div, &one_attribute("id", "content"), &children);

    let name = escape(file.path.as_str());
    let mut href = String::from_str("files/");
    href.append(name.as_str());
    href.append(".html");
    let mut cells: Vec<String> = Vec::new();
    cells.push(cell(mode(file.kind)));
    cells.push(
        cell(
            wrap(Tag::Span, &no_attributes(), link(href.as_str(), name.as_str()).as_str()).as_str(),
        ),
    );
    cells.push(numeric_cell(size.as_str()));
    proof {
        assert(texts(cells@) =~= seq![
            cell_text(mode_text(file.kind)),
            cell_text(
                wrapped_text(
                    Tag::Span,
                    Seq::empty(),
                    link_text("files/"@ + escaped(file.path@) + ".html"@, escaped(file.path@)),
                ),
            ),
            numeric_cell_text(file@.size_text()),
        ]);
    }
    (row(&cells), page)
}

/// The listing of the files of the head tree, which are given in the order
/// of a walk through the tree, and the page of each listed file in the same
/// order.
pub fn get_files(files: &Vec<FileEntry>) -> (out: (String, Vec<FilePage>))
    ensures
        out.0@ == listing_text(files.deep_view()),
        out.1@.len() == listed(files.deep_view()).len(),
        forall|i: int|
            0 <= i < out.1@.len() ==> {
                &&& (#[trigger] out.1@[i]).path@ == listed(files.deep_view())[i].path + ".html"@
                &&& out.1@[i].html@ == file_page_text(listed(files.deep_view())[i])
            },
{
    let mut rows: Vec<String> = Vec::new();
    let mut pages: Vec<FilePage> = Vec::new();
    let mut i: usize = 0;
    while i < files.len()
        invariant
            i <= files.len(),
            texts(rows@) == listed(files.deep_view().take(i as int)).map_values(
                |file: FileView| file_row_text(file),
            ),
            pages@.len() == listed(files.deep_view().take(i as int)).len(),
            forall|k: int|
                0 <= k < pages@.len() ==> {
                    &&& (#[trigger] pages@[k]).path@ == listed(
                        files.deep_view().take(i as int),
                    )[k].path + ".html"@
                    &&& pages@[k].html@ == file_page_text(
                        listed(files.deep_view().take(i as int))[k],
                    )
                },
        decreases files.len() - i,
    {
        let file = &files[i];
        proof {
            let all = files.deep_view();
            assert(all.take(i + 1).drop_last() =~= all.take(i as int));
        }
        if file.kind.holds_file() {
            let (one_row, html) = file_row_and_page(file);
            let mut path = String::from_str(file.path.as_str());
            path.append(".html");
            proof {
                lemma_texts_push(rows@, one_row);
            }
            rows.push(one_row);
            pages.push(FilePage { path, html });
        }
        i = i + 1;
    }
    assert(files.deep_view().take(files.len() as int) =~= files.deep_view());

    let mut names: Vec<String> = Vec::new();
    names.push(String::from_str("Mode"));
    names.push(String::from_str("Name"));
    names.push(String::from_str("Size"));
    proof {
        assert(texts(names@) =~= seq!["Mode"@, "Name"@, "Size"@]);
    }
    let mut head: Vec<String> = Vec::new();
    head.push(header_row(&names));
    proof {
        assert(texts(head@) =~= seq![files_head_text()]);
    }
    let listing = table(&one_attribute("id", "files"), &head, &rows);
    (wrap(Tag::Div, &no_attributes(), listing.as_str()), pages)
}

} // verus!

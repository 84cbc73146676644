//! What is known of a repository besides its history, and the frame that
//! every page of a repository shares.

use crate::html::{
    add_attribute, attribute_views, document, document_text, element, element_text, leaf, leaf_text,
    link, link_text, no_attributes, one_attribute, plain_row, plain_row_text, table, table_text,
    wrap, wrapped_text, Tag,
};
use crate::model::{optional_text, TreeEntry, TreeEntryView};
use crate::path::{
    display_name, display_name_of, index_prefix, lemma_no_components, root_prefix, to_index_root,
    to_root_path,
};
use crate::text::{str_eq, texts, trim_ends, trimmed};
use vstd::prelude::*;

verus! {

/// What is known of one repository.
#[derive(Debug)]
pub struct Meta {
    pub description: String,
    /// Where the repository can be cloned from.
    pub url: String,
    /// The name under which the repository is shown.
    pub name: String,
    pub owner: String,
    /// The directory of the head tree that is published as pages, if any;
    /// the empty path stands for the whole tree.
    pub pages: Option<String>,
    /// The name of the readme at the top of the head tree, if there is one.
    pub readme: Option<String>,
    /// The name of the license at the top of the head tree, if there is one.
    pub license: Option<String>,
}

/// What is known of one repository, as characters.
pub struct MetaView {
    pub description: Seq<char>,
    pub url: Seq<char>,
    pub name: Seq<char>,
    pub owner: Seq<char>,
    pub pages: Option<Seq<char>>,
    pub readme: Option<Seq<char>>,
    pub license: Option<Seq<char>>,
}

impl View for Meta {
    type V = MetaView;

    open spec fn view(&self) -> MetaView {
        MetaView {
            description: self.description@,
            url: self.url@,
            name: self.name@,
            owner: self.owner@,
            pages: optional_text(self.pages),
            readme: optional_text(self.readme),
            license: optional_text(self.license),
        }
    }
}

/// The content of the files that describe a repository, each as it was
/// read, or nothing where the file is missing.
#[derive(Debug)]
pub struct MetaFiles {
    pub description: Option<String>,
    pub url: Option<String>,
    pub owner: Option<String>,
    pub pages: Option<String>,
}

/// The content of the files that describe a repository, as characters.
pub struct MetaFilesView {
    pub description: Option<Seq<char>>,
    pub url: Option<Seq<char>>,
    pub owner: Option<Seq<char>>,
    pub pages: Option<Seq<char>>,
}

impl View for MetaFiles {
    type V = MetaFilesView;

    open spec fn view(&self) -> MetaFilesView {
        MetaFilesView {
            description: optional_text(self.description),
            url: optional_text(self.url),
            owner: optional_text(self.owner),
            pages: optional_text(self.pages),
        }
    }
}

/// Why nothing is known of a repository.
#[derive(Clone, Copy, Debug, PartialEq, Eq, Structural)]
pub enum MetaError {
    /// The path of the repository ends in no name.
    NoName,
}

/// One page of a site: where it lies below the site's directory, and its
/// text.
#[derive(Clone, Debug)]
pub struct SitePage {
    pub path: String,
    pub html: String,
}

/// The names under which a readme is looked for, in order of preference.
pub open spec fn readme_names() -> Seq<Seq<char>> {
    seq!["README"@, "README.md"@]
}

/// The names under which a license is looked for, in order of preference.
pub open spec fn license_names() -> Seq<Seq<char>> {
    seq!["LICENSE"@, "LICENSE.md"@, "COPYING"@]
}

/// Whether `entries` hold a file whose path is `name`.
pub open spec fn has_file(entries: Seq<TreeEntryView>, name: Seq<char>) -> bool {
    exists|i: int|
        0 <= i < entries.len() && (#[trigger] entries[i]).kind.is_file() && entries[i].path
            == name
}

/// The first of `names` that is the path of a file among `entries`.
pub open spec fn first_match(entries: Seq<TreeEntryView>, names: Seq<Seq<char>>) -> Option<
    Seq<char>,
>
    decreases names.len(),
{
    if names.len() == 0 {
        None
    } else if has_file(entries, names[0]) {
        Some(names[0])
    } else {
        first_match(entries, names.skip(1))
    }
}

/// The content of an optional file as it is kept: without white space at
/// its ends.
pub open spec fn kept_content(content: Option<Seq<char>>) -> Option<Seq<char>> {
    match content {
        Some(text) => Some(trimmed(text)),
        None => None,
    }
}

/// The content of an optional file, or nothing.
pub open spec fn content_or_empty(content: Option<Seq<char>>) -> Seq<char> {
    match content {
        Some(text) => trimmed(text),
        None => Seq::empty(),
    }
}

/// What is noted where a field is empty.
pub open spec fn note_if(missing: bool, note: Seq<char>) -> Seq<Seq<char>> {
    if missing {
        seq![note]
    } else {
        Seq::empty()
    }
}

/// What is noted of a repository whose describing files are missing: one
/// note for an empty description, one for an empty clone address, one for
/// an empty owner, and one where no pages directory is named.
pub open spec fn missing_notes(meta: MetaView) -> Seq<Seq<char>> {
    note_if(meta.description.len() == 0, "no description file found"@) + note_if(
        meta.url.len() == 0,
        "no url file found"@,
    ) + note_if(meta.owner.len() == 0, "no owner file found"@) + note_if(
        meta.pages is None,
        "no pages file found"@,
    )
}

/// Whether `path` lies in a directory of the tree, not at its top.
pub open spec fn is_nested(path: Seq<char>) -> bool {
    path.contains('/')
}

/// An entry that lies in a directory is never taken for the readme or the
/// license: with it or without it, the same names are found.
pub proof fn lemma_nested_never_detected(entries: Seq<TreeEntryView>, nested: TreeEntryView)
    requires
        is_nested(nested.path),
    ensures
        first_match(entries.push(nested), readme_names()) == first_match(entries, readme_names()),
        first_match(entries.push(nested), license_names()) == first_match(
            entries,
            license_names(),
        ),
{
    let more = entries.push(nested);
    assert forall|name: Seq<char>| !is_nested(name) implies has_file(more, name) == has_file(
        entries,
        name,
    ) by {
        if has_file(entries, name) {
            let i = choose|i: int|
                0 <= i < entries.len() && (#[trigger] entries[i]).kind.is_file()
                    && entries[i].path == name;
            assert(more[i] == entries[i]);
        }
        if has_file(more, name) {
            let i = choose|i: int|
                0 <= i < more.len() && (#[trigger] more[i]).kind.is_file() && more[i].path
                    == name;
        }
    }
    lemma_plain(readme_names());
    lemma_plain(license_names());
    lemma_first_match_same(entries, more, readme_names());
    lemma_first_match_same(entries, more, license_names());
}

/// The names that are looked for lie at the top of the tree.
proof fn lemma_plain(names: Seq<Seq<char>>)
    requires
        names == readme_names() || names == license_names(),
    ensures
        forall|k: int| 0 <= k < names.len() ==> !is_nested(#[trigger] names[k]),
{
    reveal_strlit("README");
    reveal_strlit("README.md");
    reveal_strlit("LICENSE");
    reveal_strlit("LICENSE.md");
    reveal_strlit("COPYING");
}

/// Where two trees have files of the same names among `names`, the same
/// name is found first in both.
proof fn lemma_first_match_same(
    a: Seq<TreeEntryView>,
    b: Seq<TreeEntryView>,
    names: Seq<Seq<char>>,
)
    requires
        forall|k: int| 0 <= k < names.len() ==> has_file(a, #[trigger] names[k]) == has_file(
            b,
            names[k],
        ),
    ensures
        first_match(a, names) == first_match(b, names),
    decreases names.len(),
{
    if names.len() > 0 {
        lemma_first_match_same(a, b, names.skip(1));
    }
}

/// Whether `entries` hold a file whose path is `name`.
pub fn holds_file(entries: &Vec<TreeEntry>, name: &str) -> (found: bool)
    ensures
        found == has_file(entries.deep_view(), name@),
{
    let mut i: usize = 0;
    while i < entries.len()
        invariant
            i <= entries.len(),
            forall|k: int|
                0 <= k < i ==> !((#[trigger] entries.deep_view()[k]).kind.is_file()
                    && entries.deep_view()[k].path == name@),
        decreases entries.len() - i,
    {
        if entries[i].kind.holds_file() && str_eq(entries[i].path.as_str(), name) {
            assert(entries.deep_view()[i as int] == entries@[i as int]@);
            return true;
        }
        i = i + 1;
    }
    false
}

/// The first of `names` that is the path of a file among `entries`.
pub fn find_first(entries: &Vec<TreeEntry>, names: &Vec<String>) -> (found: Option<String>)
    ensures
        optional_text(found) == first_match(entries.deep_view(), texts(names@)),
{
    let mut i: usize = 0;
    assert(texts(names@).skip(0) =~= texts(names@));
    while i < names.len()
        invariant
            i <= names.len(),
            first_match(entries.deep_view(), texts(names@)) == first_match(
                entries.deep_view(),
                texts(names@).skip(i as int),
            ),
        decreases names.len() - i,
    {
        let ghost rest = texts(names@).skip(i as int);
        proof {
            assert(rest.skip(1) =~= texts(names@).skip(i + 1));
        }
        if holds_file(entries, names[i].as_str()) {
            return Some(names[i].clone());
        }
        i = i + 1;
    }
    None
}

/// The readme at the top of a tree, if it has one.
pub fn find_readme(entries: &Vec<TreeEntry>) -> (found: Option<String>)
    ensures
        optional_text(found) == first_match(entries.deep_view(), readme_names()),
{
    let mut names: Vec<String> = Vec::new();
    names.push(String::from_str("README"));
    names.push(String::from_str("README.md"));
    assert(texts(names@) =~= readme_names());
    find_first(entries, &names)
}

/// The license at the top of a tree, if it has one.
pub fn find_license(entries: &Vec<TreeEntry>) -> (found: Option<String>)
    ensures
        optional_text(found) == first_match(entries.deep_view(), license_names()),
{
    let mut names: Vec<String> = Vec::new();
    names.push(String::from_str("LICENSE"));
    names.push(String::from_str("LICENSE.md"));
    names.push(String::from_str("COPYING"));
    assert(texts(names@) =~= license_names());
    find_first(entries, &names)
}

/// Adds `note` to `notes` where `missing`.
fn add_note(notes: &mut Vec<String>, missing: bool, note: &str)
    ensures
        texts(final(notes)@) == texts(old(notes)@) + note_if(missing, note@),
{
    if missing {
        notes.push(String::from_str(note));
    }
    assert(texts(notes@) =~= texts(old(notes)@) + note_if(missing, note@));
}

/// The logo, linked to the shared index.
pub open spec fn logo_text(to_index_root: Seq<char>) -> Seq<char> {
    wrapped_text(
        Tag::Div,
        Seq::empty(),
        link_text(
            to_index_root + "index.html"@,
            wrapped_text(
                Tag::Div,
                Seq::empty(),
                leaf_text(
                    Tag::Image,
                    seq![
                        ("src"@, to_index_root + "logo.png"@),
                        ("alt"@, "logo"@),
                        ("id"@, "logo"@),
                    ],
                ),
            ),
        ),
    )
}

/// The name of the repository as a heading, and its description.
pub open spec fn title_text(name: Seq<char>, description: Seq<char>) -> Seq<char> {
    element_text(
        Tag::Div.name(),
        Seq::empty(),
        seq![
            wrapped_text(Tag::Heading1, Seq::empty(), name),
            wrapped_text(Tag::Span, seq![("class"@, "desc"@)], description),
        ],
    )
}

/// One more entry of the navigation: a separator and a link to a file's
/// page, if there is such a file.
pub open spec fn file_link_texts(
    to_repo_root: Seq<char>,
    file: Option<Seq<char>>,
    label: Seq<char>,
) -> Seq<Seq<char>> {
    match file {
        Some(name) => seq![
            " | "@,
            link_text(to_repo_root + "files/"@ + name + ".html"@, label),
        ],
        None => Seq::empty(),
    }
}

/// The navigation of a repository: links to the log, the files and the
/// refs, and to the readme and the license where the repository has them.
pub open spec fn navigation_text(meta: MetaView, to_repo_root: Seq<char>) -> Seq<char> {
    element_text(
        Tag::Navigation.name(),
        Seq::empty(),
        seq![
            link_text(to_repo_root + "log.html"@, "Log"@),
            " | "@,
            link_text(to_repo_root + "files.html"@, "Files"@),
            " | "@,
            link_text(to_repo_root + "refs.html"@, "Refs"@),
        ] + file_link_texts(to_repo_root, meta.readme, "README"@) + file_link_texts(
            to_repo_root,
            meta.license,
            "LICENSE"@,
        ),
    )
}

/// The rows of the table at the top of a page: logo and title; then, where
/// the repository has a clone address, that address; then, where `nav`, the
/// navigation.
pub open spec fn frame_rows(
    meta: MetaView,
    to_index_root: Seq<char>,
    to_repo_root: Seq<char>,
    nav: bool,
) -> Seq<Seq<char>> {
    seq![plain_row_text(seq![logo_text(to_index_root), title_text(meta.name, meta.description)])]
        + (if meta.url.len() > 0 {
        seq![plain_row_text(seq![Seq::empty(), "git clone "@ + meta.url])]
    } else {
        Seq::empty()
    }) + (if nav {
        seq![plain_row_text(seq![Seq::empty(), navigation_text(meta, to_repo_root)])]
    } else {
        Seq::empty()
    })
}

/// A whole page: the head with title, stylesheet and icon; in the body the
/// table of `frame_rows`, a rule and `content`.
#[verifier::opaque]
pub open spec fn page_text(
    meta: MetaView,
    title: Seq<char>,
    to_index_root: Seq<char>,
    to_repo_root: Seq<char>,
    content: Seq<char>,
    nav: bool,
) -> Seq<char> {
    document_text(
        title + " - "@ + meta.name + " - "@ + meta.description,
        to_index_root + "style.css"@,
        to_index_root + "favicon.png"@,
        "icon"@,
        table_text(
            Seq::empty(),
            Seq::empty(),
            frame_rows(meta, to_index_root, to_repo_root, nav),
        ) + leaf_text(Tag::HorizontalRule, Seq::empty()) + content,
    )
}

/// `prefix` before `name`.
fn prefixed(prefix: &str, name: &str) -> (path: String)
    ensures
        path@ == prefix@ + name@,
{
    let mut path = String::from_str(prefix);
    path.append(name);
    path
}

/// One more entry of the navigation, added to `items`.
fn add_file_link(items: &mut Vec<String>, to_repo_root: &str, file: &Option<String>, label: &str)
    ensures
        texts(final(items)@) == texts(old(items)@) + file_link_texts(
            to_repo_root@,
            optional_text(*file),
            label@,
        ),
{
    match file {
        Some(name) => {
            let mut href = prefixed(to_repo_root, "files/");
            href.append(name.as_str());
            href.append(".html");
            items.push(String::from_str(" | "));
            items.push(link(href.as_str(), label));
        },
        None => {},
    }
}

impl Meta {
    /// The content of one of the files that describe a repository, without
    /// white space at its ends; nothing where the file is missing.
    pub fn load_meta_file(content: &Option<String>) -> (kept: Option<String>)
        ensures
            optional_text(kept) == kept_content(optional_text(*content)),
    {
        match content {
            Some(text) => Some(String::from_str(trim_ends(text.as_str()))),
            None => None,
        }
    }

    /// What is known of the repository at `path`, which is the full path of
    /// its directory, from the files that describe it and from the entries
    /// at the top of its head tree. A missing file leaves its field empty.
    /// The name is the last component of `path` without its extension.
    pub fn load(files: &MetaFiles, path: &str, entries: &Vec<TreeEntry>) -> (loaded: Result<
        Meta,
        MetaError,
    >)
        ensures
            loaded is Ok <==> display_name_of(path@) is Some,
            loaded is Err ==> loaded->Err_0 == MetaError::NoName,
            loaded is Ok ==> loaded->Ok_0@ == (MetaView {
                name: display_name_of(path@)->0,
                description: content_or_empty(files@.description),
                url: content_or_empty(files@.url),
                owner: content_or_empty(files@.owner),
                pages: kept_content(files@.pages),
                readme: first_match(entries.deep_view(), readme_names()),
                license: first_match(entries.deep_view(), license_names()),
            }),
    {
        let name = match display_name(path) {
            Some(name) => name,
            None => {
                return Err(MetaError::NoName);
            },
        };
        let description = match Self::load_meta_file(&files.description) {
            Some(text) => text,
            None => String::new(),
        };
        let url = match Self::load_meta_file(&files.url) {
            Some(text) => text,
            None => String::new(),
        };
        let owner = match Self::load_meta_file(&files.owner) {
            Some(text) => text,
            None => String::new(),
        };
        let pages = Self::load_meta_file(&files.pages);
        let readme = find_readme(entries);
        let license = find_license(entries);
        Ok(Meta { description, url, name, owner, pages, readme, license })
    }

    /// What is noted of the repository because files that describe it are
    /// missing. None of this keeps the repository from being shown.
    pub fn diagnostics(&self) -> (notes: Vec<String>)
        ensures
            texts(notes@) == missing_notes(self@),
    {
        let mut notes: Vec<String> = Vec::new();
        assert(texts(notes@) =~= Seq::<Seq<char>>::empty());
        add_note(&mut notes, self.description.as_str().is_empty(), "no description file found");
        add_note(&mut notes, self.url.as_str().is_empty(), "no url file found");
        add_note(&mut notes, self.owner.as_str().is_empty(), "no owner file found");
        add_note(&mut notes, self.pages.is_none(), "no pages file found");
        notes
    }

    /// The navigation of the repository.
    pub fn navigation(&self, to_repo_root: &str) -> (html: String)
        ensures
            html@ == navigation_text(self@, to_repo_root@),
    {
        let mut items: Vec<String> = Vec::new();
        items.push(link(prefixed(to_repo_root, "log.html").as_str(), "Log"));
        items.push(String::from_str(" | "));
        items.push(link(prefixed(to_repo_root, "files.html").as_str(), "Files"));
        items.push(String::from_str(" | "));
        items.push(link(prefixed(to_repo_root, "refs.html").as_str(), "Refs"));
        proof {
            assert(texts(items@) =~= seq![
                link_text(to_repo_root@ + "log.html"@, "Log"@),
                " | "@,
                link_text(to_repo_root@ + "files.html"@, "Files"@),
                " | "@,
                link_text(to_repo_root@ + "refs.html"@, "Refs"@),
            ]);
        }
        add_file_link(&mut items, to_repo_root, &self.readme, "README");
        add_file_link(&mut items, to_repo_root, &self.license, "LICENSE");
        element(Tag::Navigation, &no_attributes(), &items)
    }

    /// The text of a whole page around `content`. `to_index_root` leads from
    /// the page to the shared index and `to_repo_root` to the repository's
    /// own pages; `nav` asks for the navigation.
    pub fn write_html_content(
        &self,
        title: &str,
        to_index_root: &str,
        to_repo_root: &str,
        content: &str,
        nav: bool,
    ) -> (html: String)
        ensures
            html@ == page_text(self@, title@, to_index_root@, to_repo_root@, content@, nav),
    {
        let mut image = one_attribute("src", prefixed(to_index_root, "logo.png").as_str());
        add_attribute(&mut image, "alt", "logo");
        add_attribute(&mut image, "id", "logo");
        proof {
            assert(attribute_views(image@) =~= seq![
                ("src"@, to_index_root@ + "logo.png"@),
                ("alt"@, "logo"@),
                ("id"@, "logo"@),
            ]);
        }
        let logo = wrap(
            Tag::Div,
            &no_attributes(),
            link(
                prefixed(to_index_root, "index.html").as_str(),
                wrap(Tag::Div, &no_attributes(), leaf(Tag::Image, &image).as_str()).as_str(),
            ).as_str(),
        );
        let mut heading: Vec<String> = Vec::new();
        heading.push(wrap(Tag::Heading1, &no_attributes(), self.name.as_str()));
        heading.push(wrap(Tag::Span, &one_attribute("class", "desc"), self.description.as_str()));
        proof {
            assert(texts(heading@) =~= seq![
                wrapped_text(Tag::Heading1, Seq::empty(), self.name@),
                wrapped_text(Tag::Span, seq![("class"@, "desc"@)], self.description@),
            ]);
        }
        let mut first: Vec<String> = Vec::new();
        first.push(logo);
        first.push(element(Tag::Div, &no_attributes(), &heading));
        proof {
            assert(texts(first@) =~= seq![
                logo_text(to_index_root@),
                title_text(self.name@, self.description@),
            ]);
        }
        let mut rows: Vec<String> = Vec::new();
        rows.push(plain_row(&first));
        if !self.url.as_str().is_empty() {
            let mut second: Vec<String> = Vec::new();
            second.push(String::new());
            second.push(prefixed("git clone ", self.url.as_str()));
            proof {
                assert(texts(second@) =~= seq![Seq::empty(), "git clone "@ + self.url@]);
            }
            let one = plain_row(&second);
            rows.push(one);
        }
        if nav {
            let mut third: Vec<String> = Vec::new();
            third.push(String::new());
            third.push(self.navigation(to_repo_root));
            proof {
                assert(texts(third@) =~= seq![
                    Seq::empty(),
                    navigation_text(self@, to_repo_root@),
                ]);
            }
            let one = plain_row(&third);
            rows.push(one);
        }
        proof {
            assert(texts(rows@) =~= frame_rows(self@, to_index_root@, to_repo_root@, nav));
        }
        let no_rows: Vec<String> = Vec::new();
        let mut body = table(&no_attributes(), &no_rows, &rows);
        body.append(leaf(Tag::HorizontalRule, &no_attributes()).as_str());
        body.append(content);

        reveal(page_text);
        let mut full_title = String::from_str(title);
        full_title.append(" - ");
        full_title.append(self.name.as_str());
        full_title.append(" - ");
        full_title.append(self.description.as_str());
        document(
            full_title.as_str(),
            prefixed(to_index_root, "style.css").as_str(),
            prefixed(to_index_root, "favicon.png").as_str(),
            "icon",
            body.as_str(),
        )
    }

    /// The page that is written to `filepath`, which is counted from the
    /// directory of the repository's pages: the links of the frame lead
    /// back from where the page lies.
    pub fn write_html_content_to_file(
        &self,
        title: &str,
        filepath: &str,
        content: &str,
        nav: bool,
    ) -> (page: SitePage)
        ensures
            page.path@ == filepath@,
            page.html@ == page_text(
                self@,
                title@,
                index_prefix(root_prefix(filepath@, Seq::empty())),
                root_prefix(filepath@, Seq::empty()),
                content@,
                nav,
            ),
    {
        proof {
            reveal_strlit("");
            lemma_no_components();
        }
        let to_repo_root = to_root_path(filepath, "");
        let to_index_root = to_index_root(to_repo_root.as_str());
        let html = self.write_html_content(
            title,
            to_index_root.as_str(),
            to_repo_root.as_str(),
            content,
            nav,
        );
        SitePage { path: String::from_str(filepath), html }
    }
}

} // verus!

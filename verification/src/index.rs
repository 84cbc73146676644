//! The index of repositories: one table with a row for each repository.

use crate::html::{
    header_row, header_row_text, link, link_text, no_attributes, one_attribute, plain_row,
    plain_row_text, table, table_text, wrap, wrapped_text, Tag,
};
use crate::meta::{page_text, Meta, MetaView};
use crate::model::{optional_text, Time};
use crate::text::texts;
use vstd::prelude::*;

verus! {

/// How the index is made.
#[derive(Debug)]
pub struct IndexOptions {
    /// The directory that the index is written to; without it the index is
    /// printed.
    pub out_dir: Option<String>,
    /// A stylesheet to copy beside the index.
    pub stylesheet: Option<String>,
    /// A logo to copy beside the index.
    pub logo: Option<String>,
    /// An icon to copy beside the index.
    pub favicon: Option<String>,
    /// The address below which the pages of the repositories are published.
    pub pages_url: Option<String>,
}

/// How the index is made, as characters.
pub struct IndexOptionsView {
    pub out_dir: Option<Seq<char>>,
    pub stylesheet: Option<Seq<char>>,
    pub logo: Option<Seq<char>>,
    pub favicon: Option<Seq<char>>,
    pub pages_url: Option<Seq<char>>,
}

impl View for IndexOptions {
    type V = IndexOptionsView;

    open spec fn view(&self) -> IndexOptionsView {
        IndexOptionsView {
            out_dir: optional_text(self.out_dir),
            stylesheet: optional_text(self.stylesheet),
            logo: optional_text(self.logo),
            favicon: optional_text(self.favicon),
            pages_url: optional_text(self.pages_url),
        }
    }
}

/// What the index shows of one repository.
#[derive(Debug)]
pub struct RepoSummary {
    pub meta: Meta,
    /// When the head commit was made.
    pub last_commit: Time,
}

/// What the index shows of one repository, as characters.
pub struct RepoSummaryView {
    pub meta: MetaView,
    pub last_commit: Time,
}

impl View for RepoSummary {
    type V = RepoSummaryView;

    open spec fn view(&self) -> RepoSummaryView {
        RepoSummaryView { meta: self.meta@, last_commit: self.last_commit }
    }
}

impl DeepView for RepoSummary {
    type V = RepoSummaryView;

    open spec fn deep_view(&self) -> RepoSummaryView {
        self@
    }
}

/// One step of putting the index in place.
#[derive(Clone, Debug)]
pub enum IndexStep {
    /// Print the page.
    Print { html: String },
    /// Write the page to the file `name` of the output directory.
    Write { name: String, html: String },
    /// Copy the file `from` to the file `name` of the output directory.
    Copy { from: String, name: String },
}

/// One step of putting the index in place, as characters.
pub enum IndexStepView {
    Print { html: Seq<char> },
    Write { name: Seq<char>, html: Seq<char> },
    Copy { from: Seq<char>, name: Seq<char> },
}

impl View for IndexStep {
    type V = IndexStepView;

    open spec fn view(&self) -> IndexStepView {
        match *self {
            IndexStep::Print { html } => IndexStepView::Print { html: html@ },
            IndexStep::Write { name, html } => IndexStepView::Write { name: name@, html: html@ },
            IndexStep::Copy { from, name } => IndexStepView::Copy { from: from@, name: name@ },
        }
    }
}

impl DeepView for IndexStep {
    type V = IndexStepView;

    open spec fn deep_view(&self) -> IndexStepView {
        self@
    }
}

/// The name of a repository, linked to its log.
pub open spec fn name_link_text(name: Seq<char>) -> Seq<char> {
    link_text(name + "/log.html"@, name)
}

/// The link to the published pages of a repository: there is one where the
/// repository names a pages directory and an address is configured. The
/// directory stands below the address, or alone where the address is empty.
pub open spec fn pages_link_text(pages: Option<Seq<char>>, pages_url: Option<Seq<char>>) -> Seq<
    char,
> {
    if pages is Some && pages_url is Some {
        link_text(
            if pages_url->0.len() == 0 {
                pages->0
            } else {
                pages_url->0 + "/"@ + pages->0
            },
            pages->0,
        )
    } else {
        Seq::empty()
    }
}

/// The row of one repository: name, description, owner, time of the last
/// commit, and the link to its pages.
pub open spec fn index_row_text(repo: RepoSummaryView, pages_url: Option<Seq<char>>) -> Seq<char> {
    plain_row_text(
        seq![
            name_link_text(repo.meta.name),
            repo.meta.description,
            repo.meta.owner,
            repo.last_commit.text(),
            pages_link_text(repo.meta.pages, pages_url),
        ],
    )
}

/// The rows of the repositories that could be read, in order. A repository
/// that could not be read has no row.
pub open spec fn index_rows(
    repos: Seq<Option<RepoSummaryView>>,
    pages_url: Option<Seq<char>>,
) -> Seq<Seq<char>>
    decreases repos.len(),
{
    if repos.len() == 0 {
        Seq::empty()
    } else {
        match repos.last() {
            Some(repo) => index_rows(repos.drop_last(), pages_url).push(
                index_row_text(repo, pages_url),
            ),
            None => index_rows(repos.drop_last(), pages_url),
        }
    }
}

/// The head of the index.
pub open spec fn index_head_text() -> Seq<char> {
    header_row_text(
        seq!["Name"@, "Description"@, "Owner"@, "Last commit"@, "Pages URL"@],
    )
}

/// The table of repositories.
pub open spec fn index_table_text(
    repos: Seq<Option<RepoSummaryView>>,
    pages_url: Option<Seq<char>>,
) -> Seq<char> {
    wrapped_text(
        Tag::Div,
        Seq::empty(),
        table_text(seq![("id"@, "index"@)], seq![index_head_text()], index_rows(repos, pages_url)),
    )
}

/// What frames the index: the name `Repositories` and nothing else.
pub open spec fn index_frame() -> MetaView {
    MetaView {
        name: "Repositories"@,
        description: Seq::empty(),
        url: Seq::empty(),
        owner: Seq::empty(),
        pages: None,
        readme: None,
        license: None,
    }
}

/// The page of the index: the table of repositories in the frame of the
/// index, without navigation, with links that start where the page lies.
pub open spec fn index_page_text(
    repos: Seq<Option<RepoSummaryView>>,
    pages_url: Option<Seq<char>>,
) -> Seq<char> {
    page_text(
        index_frame(),
        "Index"@,
        Seq::empty(),
        Seq::empty(),
        index_table_text(repos, pages_url),
        false,
    )
}

/// The copy of a file to the file `name` beside the index, if the file is
/// given.
pub open spec fn copy_steps(from: Option<Seq<char>>, name: Seq<char>) -> Seq<IndexStepView> {
    match from {
        Some(path) => seq![IndexStepView::Copy { from: path, name }],
        None => Seq::empty(),
    }
}

/// The steps that put the index in place. With an output directory the
/// page is written there as `index.html`, and stylesheet, logo and icon are
/// copied beside it as far as they are given; without one the page is
/// printed and nothing is copied.
pub open spec fn index_steps(
    repos: Seq<Option<RepoSummaryView>>,
    options: IndexOptionsView,
) -> Seq<IndexStepView> {
    if options.out_dir is Some {
        seq![
            IndexStepView::Write {
                name: "index.html"@,
                html: index_page_text(repos, options.pages_url),
            },
        ] + copy_steps(options.stylesheet, "style.css"@) + copy_steps(options.logo, "logo.png"@)
            + copy_steps(options.favicon, "favicon.png"@)
    } else {
        seq![IndexStepView::Print { html: index_page_text(repos, options.pages_url) }]
    }
}

/// The link to the published pages of a repository.
pub fn pages_link(pages: &Option<String>, pages_url: &Option<String>) -> (html: String)
    ensures
        html@ == pages_link_text(optional_text(*pages), optional_text(*pages_url)),
{
    match (pages, pages_url) {
        (Some(pages), Some(base)) => {
            if base.as_str().is_empty() {
                link(pages.as_str(), pages.as_str())
            } else {
                let mut href = String::from_str(base.as_str());
                href.append("/");
                href.append(pages.as_str());
                link(href.as_str(), pages.as_str())
            }
        },
        _ => String::new(),
    }
}

/// Adds the row of one repository to the rows of the index.
pub fn add_row_for_repo_index(
    repo: &RepoSummary,
    pages_url: &Option<String>,
    rows: &mut Vec<String>,
)
    ensures
        texts(final(rows)@) == texts(old(rows)@).push(
            index_row_text(repo@, optional_text(*pages_url)),
        ),
{
    let mut href = String::from_str(repo.meta.name.as_str());
    href.append("/log.html");
    let mut values: Vec<String> = Vec::new();
    values.push(link(href.as_str(), repo.meta.name.as_str()));
    values.push(repo.meta.description.clone());
    values.push(repo.meta.owner.clone());
    values.push(repo.last_commit.format());
    values.push(pages_link(&repo.meta.pages, pages_url));
    proof {
        assert(texts(values@) =~= seq![
            name_link_text(repo.meta.name@),
            repo.meta.description@,
            repo.meta.owner@,
            repo.last_commit.text(),
            pages_link_text(optional_text(repo.meta.pages), optional_text(*pages_url)),
        ]);
    }
    let one = plain_row(&values);
    rows.push(one);
}

/// The table of repositories. Each repository is given as what could be
/// read of it, or as nothing where reading it failed.
pub fn index_table(repos: &Vec<Option<RepoSummary>>, pages_url: &Option<String>) -> (html: String)
    ensures
        html@ == index_table_text(repos.deep_view(), optional_text(*pages_url)),
{
    let mut rows: Vec<String> = Vec::new();
    let mut i: usize = 0;
    while i < repos.len()
        invariant
            i <= repos.len(),
            texts(rows@) == index_rows(
                repos.deep_view().take(i as int),
                optional_text(*pages_url),
            ),
        decreases repos.len() - i,
    {
        proof {
            let all = repos.deep_view();
            assert(all.take(i + 1).drop_last() =~= all.take(i as int));
        }
        match &repos[i] {
            Some(repo) => {
                add_row_for_repo_index(repo, pages_url, &mut rows);
            },
            None => {},
        }
        i = i + 1;
    }
    assert(repos.deep_view().take(repos.len() as int) =~= repos.deep_view());
    let mut names: Vec<String> = Vec::new();
    names.push(String::from_str("Name"));
    names.push(String::from_str("Description"));
    names.push(String::from_str("Owner"));
    names.push(String::from_str("Last commit"));
    names.push(String::from_str("Pages URL"));
    proof {
        assert(texts(names@) =~= seq![
            "Name"@,
            "Description"@,
            "Owner"@,
            "Last commit"@,
            "Pages URL"@,
        ]);
    }
    let mut head: Vec<String> = Vec::new();
    head.push(header_row(&names));
    proof {
        assert(texts(head@) =~= seq![index_head_text()]);
    }
    let listing = table(&one_attribute("id", "index"), &head, &rows);
    wrap(Tag::Div, &no_attributes(), listing.as_str())
}

/// What frames the index.
pub fn index_meta() -> (meta: Meta)
    ensures
        meta@ == index_frame(),
{
    Meta {
        description: String::new(),
        url: String::new(),
        name: String::from_str("Repositories"),
        owner: String::new(),
        pages: None,
        readme: None,
        license: None,
    }
}

/// Adds the copy of `from` to the file `name`, if `from` is given.
fn add_copy(steps: &mut Vec<IndexStep>, from: &Option<String>, name: &str)
    ensures
        final(steps).deep_view() == old(steps).deep_view() + copy_steps(
            optional_text(*from),
            name@,
        ),
{
    match from {
        Some(path) => {
            steps.push(IndexStep::Copy { from: path.clone(), name: String::from_str(name) });
        },
        None => {
        },
    }
}

/// The steps that put the index of `repos` in place. Each repository is
/// given as what could be read of it, or as nothing where reading it
/// failed: such a repository is left out and the others stay.
pub fn build_index_page(repos: &Vec<Option<RepoSummary>>, options: &IndexOptions) -> (steps: Vec<
    IndexStep,
>)
    ensures
        steps.deep_view() == index_steps(repos.deep_view(), options@),
{
    let meta = index_meta();
    let content = index_table(repos, &options.pages_url);
    let html = meta.write_html_content("Index", "", "", content.as_str(), false);
    proof {
        reveal_strlit("");
        assert(""@ =~= Seq::<char>::empty());
    }
    let mut steps: Vec<IndexStep> = Vec::new();
    match &options.out_dir {
        Some(_) => {
            steps.push(IndexStep::Write { name: String::from_str("index.html"), html });
            add_copy(&mut steps, &options.stylesheet, "style.css");
            add_copy(&mut steps, &options.logo, "logo.png");
            add_copy(&mut steps, &options.favicon, "favicon.png");
        },
        None => {
            steps.push(IndexStep::Print { html });
        },
    }
    steps
}

} // verus!

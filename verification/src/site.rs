//! The whole site of one repository: every page with the place it is
//! written to.

use crate::commit::{commit_page_text, get_commits, links_parent, shown_are_diffable};
use crate::files::{file_page_text, get_files, listed, listing_text};
use crate::history::{get_log, log_text, shown_count};
use crate::meta::{page_text, Meta, MetaView, SitePage};
use crate::model::{CommitRecord, CommitView, FileEntry, FileView, RefRecord, RefView};
use crate::path::{display_name, display_name_of, index_prefix, root_prefix};
use crate::refs::{get_refs, refs_text};
use vstd::prelude::*;

verus! {

/// What was read from one repository.
#[derive(Debug)]
pub struct RepoSnapshot {
    pub tags: Vec<RefRecord>,
    pub branches: Vec<RefRecord>,
    /// The entries of the head tree with their content, in the order of a
    /// walk through the tree.
    pub files: Vec<FileEntry>,
    /// The commits from the head along first parents to the root, newest
    /// first.
    pub history: Vec<CommitRecord>,
}

/// What was read from one repository, as characters and bytes.
pub struct RepoSnapshotView {
    pub tags: Seq<RefView>,
    pub branches: Seq<RefView>,
    pub files: Seq<FileView>,
    pub history: Seq<CommitView>,
}

impl View for RepoSnapshot {
    type V = RepoSnapshotView;

    open spec fn view(&self) -> RepoSnapshotView {
        RepoSnapshotView {
            tags: self.tags.deep_view(),
            branches: self.branches.deep_view(),
            files: self.files.deep_view(),
            history: self.history.deep_view(),
        }
    }
}

/// A page as characters: its place, then its text.
pub type PageText = (Seq<char>, Seq<char>);

impl View for SitePage {
    type V = PageText;

    open spec fn view(&self) -> PageText {
        (self.path@, self.html@)
    }
}

impl DeepView for SitePage {
    type V = PageText;

    open spec fn deep_view(&self) -> PageText {
        self@
    }
}

/// `content` in the frame of the repository, with navigation, as the page
/// at `path` below the directory of the site.
pub open spec fn framed(meta: MetaView, title: Seq<char>, path: Seq<char>, content: Seq<char>)
    -> PageText {
    (
        path,
        page_text(
            meta,
            title,
            index_prefix(root_prefix(path, Seq::empty())),
            root_prefix(path, Seq::empty()),
            content,
            true,
        ),
    )
}

/// The title of a file's page: the name that the page's path ends in,
/// without the page's own extension.
pub open spec fn file_title(page_path: Seq<char>) -> Seq<char> {
    match display_name_of(page_path) {
        Some(name) => name,
        None => Seq::empty(),
    }
}

/// The page of one file of the head tree.
pub open spec fn file_site_page(meta: MetaView, file: FileView) -> PageText {
    framed(
        meta,
        file_title(file.path + ".html"@),
        "files/"@ + (file.path + ".html"@),
        file_page_text(file),
    )
}

/// The page of one commit.
pub open spec fn commit_site_page(meta: MetaView, commit: CommitView, link_parent: bool)
    -> PageText {
    framed(
        meta,
        commit.title,
        "commits/"@ + commit.id + ".html"@,
        commit_page_text(commit, link_parent),
    )
}

/// The pages of the files that are listed, in order.
pub open spec fn file_site_pages(meta: MetaView, files: Seq<FileView>) -> Seq<PageText> {
    Seq::new(listed(files).len(), |i: int| file_site_page(meta, listed(files)[i]))
}

/// The pages of the commits that are shown, newest first.
pub open spec fn commit_site_pages(
    meta: MetaView,
    history: Seq<CommitView>,
    limit: Option<usize>,
) -> Seq<PageText> {
    Seq::new(
        shown_count(history.len(), limit),
        |i: int| commit_site_page(meta, history[i], links_parent(i, limit)),
    )
}

/// Every page of the site of a repository, in the order in which they are
/// written: the refs, the page of each file, the listing of the files, the
/// log, and the page of each commit that the log shows.
pub open spec fn site_pages(meta: MetaView, repo: RepoSnapshotView, limit: Option<usize>) -> Seq<
    PageText,
> {
    seq![framed(meta, "Refs"@, "refs.html"@, refs_text(repo.tags, repo.branches))]
        + file_site_pages(meta, repo.files) + seq![
        framed(meta, "Files"@, "files.html"@, listing_text(repo.files)),
        framed(meta, "Log"@, "log.html"@, log_text(repo.history, limit)),
    ] + commit_site_pages(meta, repo.history, limit)
}

/// `content` in the frame of the repository as the page at `path`.
fn frame(meta: &Meta, title: &str, path: &str, content: &str) -> (page: SitePage)
    ensures
        page@ == framed(meta@, title@, path@, content@),
{
    meta.write_html_content_to_file(title, path, content, true)
}

/// The listing of the files of the head tree, and the page of each listed
/// file in the frame of the repository.
pub fn build_file_pages(meta: &Meta, files: &Vec<FileEntry>) -> (out: (String, Vec<SitePage>))
    ensures
        out.0@ == listing_text(files.deep_view()),
        out.1.deep_view() == file_site_pages(meta@, files.deep_view()),
{
    let (listing, file_pages) = get_files(files);
    let mut pages: Vec<SitePage> = Vec::new();
    let mut i: usize = 0;
    let ghost all = listed(files.deep_view());
    while i < file_pages.len()
        invariant
            i <= file_pages.len(),
            all == listed(files.deep_view()),
            file_pages@.len() == all.len(),
            forall|k: int|
                0 <= k < file_pages@.len() ==> {
                    &&& (#[trigger] file_pages@[k]).path@ == all[k].path + ".html"@
                    &&& file_pages@[k].html@ == file_page_text(all[k])
                },
            pages.deep_view() == Seq::new(i as nat, |k: int| file_site_page(meta@, all[k])),
        decreases file_pages.len() - i,
    {
        let one = &file_pages[i];
        let title = match display_name(one.path.as_str()) {
            Some(name) => name,
            None => String::new(),
        };
        let mut path = String::from_str("files/");
        path.append(one.path.as_str());
        let page = frame(meta, title.as_str(), path.as_str(), one.html.as_str());
        proof {
            assert(page@ == file_site_page(meta@, all[i as int]));
        }
        let ghost before = pages.deep_view();
        pages.push(page);
        assert(pages.deep_view() =~= before.push(page@));
        i = i + 1;
    }
    (listing, pages)
}

/// The page of each commit that is shown under `log_length`, in the frame of
/// the repository.
pub fn build_commit_pages(meta: &Meta, history: &Vec<CommitRecord>, log_length: Option<usize>)
    -> (pages: Vec<SitePage>)
    requires
        shown_are_diffable(history.deep_view(), log_length),
    ensures
        pages.deep_view() == commit_site_pages(meta@, history.deep_view(), log_length),
{
    let commits = get_commits(history, log_length);
    let mut pages: Vec<SitePage> = Vec::new();
    let mut j: usize = 0;
    let ghost all = history.deep_view();
    assert(pages.deep_view() =~= Seq::new(
        0,
        |k: int| commit_site_page(meta@, all[k], links_parent(k, log_length)),
    ));
    while j < commits.len()
        invariant
            j <= commits.len(),
            all == history.deep_view(),
            commits@.len() == shown_count(history@.len(), log_length),
            forall|k: int|
                0 <= k < commits@.len() ==> {
                    &&& (#[trigger] commits@[k]).id@ == history@[k].id@
                    &&& commits@[k].title@ == history@[k].title@
                    &&& commits@[k].html@ == commit_page_text(
                        history@[k]@,
                        links_parent(k, log_length),
                    )
                },
            pages.deep_view() == Seq::new(
                j as nat,
                |k: int| commit_site_page(meta@, all[k], links_parent(k, log_length)),
            ),
        decreases commits.len() - j,
    {
        let one = &commits[j];
        let mut path = String::from_str("commits/");
        path.append(one.id.as_str());
        path.append(".html");
        let page = frame(meta, one.title.as_str(), path.as_str(), one.html.as_str());
        proof {
            assert(all[j as int] == history@[j as int]@);
        }
        let ghost before = pages.deep_view();
        pages.push(page);
        assert(pages.deep_view() =~= before.push(page@));
        j = j + 1;
    }
    pages
}

/// Every page of the site of a repository.
pub fn build_repo_pages(meta: &Meta, repo: &RepoSnapshot, log_length: Option<usize>) -> (pages: Vec<
    SitePage,
>)
    requires
        shown_are_diffable(repo@.history, log_length),
    ensures
        pages.deep_view() == site_pages(meta@, repo@, log_length),
{
    let refs = get_refs(&repo.tags, &repo.branches);
    let (listing, mut file_pages) = build_file_pages(meta, &repo.files);
    let log = get_log(&repo.history, log_length);
    let mut commit_pages = build_commit_pages(meta, &repo.history, log_length);

    let refs_page = frame(meta, "Refs", "refs.html", refs.as_str());
    let files_page = frame(meta, "Files", "files.html", listing.as_str());
    let log_page = frame(meta, "Log", "log.html", log.as_str());
    let mut pages: Vec<SitePage> = Vec::new();
    pages.push(refs_page);
    pages.append(&mut file_pages);
    pages.push(files_page);
    pages.push(log_page);
    pages.append(&mut commit_pages);
    pages
}

} // verus!

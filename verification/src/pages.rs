//! Publishing the pages of a repository: finding the directory that is
//! published, laying its files out in a scratch directory, and putting that
//! directory in the place of the published one in a single exchange.

use crate::model::{optional_text, EntryKind, TreeEntry, TreeEntryView};
use crate::path::{components, components_of, display_name, display_name_of};
use crate::text::{joined, str_eq, texts};
use vstd::prelude::*;

verus! {

/// Where pages are published.
#[derive(Debug)]
pub struct PagesOptions {
    /// The directory that holds the published directory of each repository.
    pub out_dir: String,
    /// The scratch directory; it lies on the same file system as `out_dir`.
    pub working_dir: String,
}

/// Where pages are published, as characters.
pub struct PagesOptionsView {
    pub out_dir: Seq<char>,
    pub working_dir: Seq<char>,
}

impl View for PagesOptions {
    type V = PagesOptionsView;

    open spec fn view(&self) -> PagesOptionsView {
        PagesOptionsView { out_dir: self.out_dir@, working_dir: self.working_dir@ }
    }
}

/// Why the pages of a repository are not published.
#[derive(Clone, Copy, Debug, PartialEq, Eq, Structural)]
pub enum PagesError {
    /// The path of the repository ends in no name.
    NoRepoName,
    /// The head tree has no directory at the configured place.
    RootNotFound,
    /// The repository could not be read.
    Unreadable,
}

/// What publishing needs to know of one repository.
#[derive(Debug)]
pub struct PagesSource {
    /// The full path of the repository's directory.
    pub path: String,
    /// The directory of the head tree that is published, if any.
    pub pages: Option<String>,
    /// The entries of the whole head tree, each directory before what it
    /// holds.
    pub entries: Vec<TreeEntry>,
}

/// What publishing needs to know of one repository, as characters.
pub struct PagesSourceView {
    pub path: Seq<char>,
    pub pages: Option<Seq<char>>,
    pub entries: Seq<TreeEntryView>,
}

impl View for PagesSource {
    type V = PagesSourceView;

    open spec fn view(&self) -> PagesSourceView {
        PagesSourceView {
            path: self.path@,
            pages: optional_text(self.pages),
            entries: self.entries.deep_view(),
        }
    }
}

impl DeepView for PagesSource {
    type V = PagesSourceView;

    open spec fn deep_view(&self) -> PagesSourceView {
        self@
    }
}

/// One step of publishing.
#[derive(Clone, Debug)]
pub enum PublishStep {
    /// Empty the scratch directory `dir`.
    ResetScratch { dir: String },
    /// Create the directory `path`, which lies in the scratch directory.
    CreateDir { path: String },
    /// Write the content of the entry at position `entry` of the tree to
    /// the file `path`, which lies in the scratch directory.
    WriteFile { path: String, entry: usize },
    /// Make sure that the published directory `path` exists.
    CreateTarget { path: String },
    /// Exchange the directories `scratch` and `target` in one operation.
    Exchange { scratch: String, target: String },
    /// Remove the scratch directory `dir` with what it holds.
    RemoveScratch { dir: String },
}

/// One step of publishing, as characters.
pub enum StepView {
    ResetScratch { dir: Seq<char> },
    CreateDir { path: Seq<char> },
    WriteFile { path: Seq<char>, entry: nat },
    CreateTarget { path: Seq<char> },
    Exchange { scratch: Seq<char>, target: Seq<char> },
    RemoveScratch { dir: Seq<char> },
}

impl View for PublishStep {
    type V = StepView;

    open spec fn view(&self) -> StepView {
        match *self {
            PublishStep::ResetScratch { dir } => StepView::ResetScratch { dir: dir@ },
            PublishStep::CreateDir { path } => StepView::CreateDir { path: path@ },
            PublishStep::WriteFile { path, entry } => StepView::WriteFile {
                path: path@,
                entry: entry as nat,
            },
            PublishStep::CreateTarget { path } => StepView::CreateTarget { path: path@ },
            PublishStep::Exchange { scratch, target } => StepView::Exchange {
                scratch: scratch@,
                target: target@,
            },
            PublishStep::RemoveScratch { dir } => StepView::RemoveScratch { dir: dir@ },
        }
    }
}

impl DeepView for PublishStep {
    type V = StepView;

    open spec fn deep_view(&self) -> StepView {
        self@
    }
}

/// What is done for one repository.
#[derive(Clone, Debug)]
pub struct RepoPlan {
    /// The steps, in order.
    pub steps: Vec<PublishStep>,
    /// The entries of the published directory that are left out, because
    /// they are neither files nor directories.
    pub skipped: Vec<String>,
    /// Why the pages are not published, if they are not.
    pub error: Option<PagesError>,
}

/// What is done for one repository, as characters.
pub struct RepoPlanView {
    pub steps: Seq<StepView>,
    pub skipped: Seq<Seq<char>>,
    pub error: Option<PagesError>,
}

impl View for RepoPlan {
    type V = RepoPlanView;

    open spec fn view(&self) -> RepoPlanView {
        RepoPlanView {
            steps: self.steps.deep_view(),
            skipped: self.skipped.deep_view(),
            error: self.error,
        }
    }
}

impl DeepView for RepoPlan {
    type V = RepoPlanView;

    open spec fn deep_view(&self) -> RepoPlanView {
        self@
    }
}

/// `name` below the directory `dir`: the two with one separator between
/// them, or `name` alone where `dir` is empty.
pub open spec fn joined_path(dir: Seq<char>, name: Seq<char>) -> Seq<char> {
    if dir.len() == 0 {
        name
    } else if dir.last() == '/' {
        dir + name
    } else {
        dir + "/"@ + name
    }
}

/// Whether `entries` hold a directory whose path is `path`.
pub open spec fn has_tree(entries: Seq<TreeEntryView>, path: Seq<char>) -> bool {
    exists|i: int|
        0 <= i < entries.len() && (#[trigger] entries[i]).kind == EntryKind::Tree
            && entries[i].path == path
}

/// The path that the first `count` of `parts` spell.
pub open spec fn path_to(parts: Seq<Seq<char>>, count: int) -> Seq<char> {
    joined(parts.take(count), "/"@)
}

/// Whether every step on the way down `parts` leads into a directory of
/// `entries`.
pub open spec fn leads_to_tree(entries: Seq<TreeEntryView>, parts: Seq<Seq<char>>) -> bool {
    forall|count: int|
        1 <= count <= parts.len() ==> has_tree(entries, #[trigger] path_to(parts, count))
}

/// What is left of `path` below the directory `root`, if `path` lies below
/// it. Everything but the empty path lies below the empty root.
pub open spec fn below_root(path: Seq<char>, root: Seq<char>) -> Option<Seq<char>> {
    if root.len() == 0 {
        if path.len() > 0 {
            Some(path)
        } else {
            None
        }
    } else if path.len() > root.len() + 1 && path.take(root.len() as int) == root
        && path[root.len() as int] == '/' {
        Some(path.skip(root.len() as int + 1))
    } else {
        None
    }
}

/// `name` below the directory `dir`.
pub fn join_path(dir: &str, name: &str) -> (path: String)
    ensures
        path@ == joined_path(dir@, name@),
{
    let len = dir.unicode_len();
    if len == 0 {
        return String::from_str(name);
    }
    let mut path = String::from_str(dir);
    if dir.get_char(len - 1) != '/' {
        path.append("/");
    }
    path.append(name);
    path
}

/// Whether `entries` hold a directory whose path is `path`.
pub fn holds_tree(entries: &Vec<TreeEntry>, path: &str) -> (found: bool)
    ensures
        found == has_tree(entries.deep_view(), path@),
{
    let mut i: usize = 0;
    while i < entries.len()
        invariant
            i <= entries.len(),
            forall|k: int|
                0 <= k < i ==> !((#[trigger] entries.deep_view()[k]).kind == EntryKind::Tree
                    && entries.deep_view()[k].path == path@),
        decreases entries.len() - i,
    {
        assert(entries.deep_view()[i as int] == entries@[i as int]@);
        if entries[i].kind.holds_tree() && str_eq(entries[i].path.as_str(), path) {
            return true;
        }
        i = i + 1;
    }
    false
}

/// What is left of `path` below the directory `root`.
pub fn strip_root(path: &str, root: &str) -> (rest: Option<String>)
    ensures
        optional_text(rest) == below_root(path@, root@),
{
    let path_len = path.unicode_len();
    let root_len = root.unicode_len();
    if root_len == 0 {
        if path_len > 0 {
            return Some(String::from_str(path));
        } else {
            return None;
        }
    }
    if path_len <= root_len || path_len - root_len <= 1 {
        return None;
    }
    let head = path.substring_char(0, root_len);
    if !str_eq(head, root) || path.get_char(root_len) != '/' {
        return None;
    }
    let rest = path.substring_char(root_len + 1, path_len);
    Some(String::from_str(rest))
}

/// The directory of the head tree that is published, as the path that the
/// components of `docs_dir` spell. The way leads down one component at a
/// time, and each step has to end in a directory of `entries`, which are
/// the entries of the whole tree. The empty `docs_dir` names the top of the
/// tree, which is always there.
pub fn find_root_of_docs_dir(docs_dir: &str, entries: &Vec<TreeEntry>) -> (root: Result<
    String,
    PagesError,
>)
    ensures
        root is Ok <==> leads_to_tree(entries.deep_view(), components_of(docs_dir@)),
        root is Err ==> root->Err_0 == PagesError::RootNotFound,
        root is Ok ==> root->Ok_0@ == joined(components_of(docs_dir@), "/"@),
{
    let parts = components(docs_dir);
    let mut path = String::new();
    let mut i: usize = 0;
    while i < parts.len()
        invariant
            i <= parts.len(),
            texts(parts@) == components_of(docs_dir@),
            path@ == path_to(texts(parts@), i as int),
            forall|count: int|
                1 <= count <= i ==> has_tree(
                    entries.deep_view(),
                    #[trigger] path_to(texts(parts@), count),
                ),
        decreases parts.len() - i,
    {
        proof {
            assert(texts(parts@).take(i + 1).drop_last() =~= texts(parts@).take(i as int));
        }
        if i > 0 {
            path.append("/");
        }
        path.append(parts[i].as_str());
        assert(path@ == path_to(texts(parts@), i + 1));
        if !holds_tree(entries, path.as_str()) {
            return Err(PagesError::RootNotFound);
        }
        i = i + 1;
    }
    assert(texts(parts@).take(parts.len() as int) =~= texts(parts@));
    Ok(path)
}

/// The step that lays out the entry at `position`, if the entry lies below
/// `root` and is a file or a directory. Anything else is left out.
pub open spec fn staged_entry(
    entry: TreeEntryView,
    position: nat,
    root: Seq<char>,
    scratch: Seq<char>,
) -> Option<StepView> {
    match below_root(entry.path, root) {
        Some(rest) => if entry.kind.is_file() {
            Some(StepView::WriteFile { path: joined_path(scratch, rest), entry: position })
        } else if entry.kind == EntryKind::Tree {
            Some(StepView::CreateDir { path: joined_path(scratch, rest) })
        } else {
            None
        },
        None => None,
    }
}

/// The steps that lay out in `scratch` what the tree holds below `root`:
/// one for each file and each directory, in the order of `entries`, at the
/// same place below `scratch` as below `root`.
pub open spec fn staged(entries: Seq<TreeEntryView>, root: Seq<char>, scratch: Seq<char>) -> Seq<
    StepView,
>
    decreases entries.len(),
{
    if entries.len() == 0 {
        Seq::empty()
    } else {
        let before = staged(entries.drop_last(), root, scratch);
        match staged_entry(entries.last(), (entries.len() - 1) as nat, root, scratch) {
            Some(step) => before.push(step),
            None => before,
        }
    }
}

/// The paths of the entries below `root` that are left out of the layout:
/// links, submodules and whatever else is neither a file nor a directory.
pub open spec fn left_out(entries: Seq<TreeEntryView>, root: Seq<char>) -> Seq<Seq<char>>
    decreases entries.len(),
{
    if entries.len() == 0 {
        Seq::empty()
    } else {
        let before = left_out(entries.drop_last(), root);
        let last = entries.last();
        if below_root(last.path, root) is Some && !last.kind.is_file() && last.kind
            != EntryKind::Tree {
            before.push(last.path)
        } else {
            before
        }
    }
}

/// The steps that publish a directory of a tree under `name`: lay it out
/// in the scratch directory, make sure that the published directory
/// exists, exchange the two, and remove what the exchange left in the
/// scratch directory.
pub open spec fn publish_steps(
    entries: Seq<TreeEntryView>,
    root: Seq<char>,
    name: Seq<char>,
    out_dir: Seq<char>,
    scratch: Seq<char>,
) -> Seq<StepView> {
    staged(entries, root, scratch) + seq![
        StepView::CreateTarget { path: joined_path(out_dir, name) },
        StepView::Exchange { scratch: scratch, target: joined_path(out_dir, name) },
        StepView::RemoveScratch { dir: scratch },
    ]
}

/// What publishing one repository comes to: an error, or the steps. A
/// repository that names no pages directory has no steps and no error.
pub open spec fn docs_outcome(source: PagesSourceView, options: PagesOptionsView) -> Result<
    Seq<StepView>,
    PagesError,
> {
    if display_name_of(source.path) is None {
        Err(PagesError::NoRepoName)
    } else if source.pages is None {
        Ok(Seq::empty())
    } else if !leads_to_tree(source.entries, components_of(source.pages->0)) {
        Err(PagesError::RootNotFound)
    } else {
        Ok(
            publish_steps(
                source.entries,
                joined(components_of(source.pages->0), "/"@),
                display_name_of(source.path)->0,
                options.out_dir,
                options.working_dir,
            ),
        )
    }
}

/// The directory of a repository that is published, where there is one:
/// the repository has a name, names a pages directory, and its tree has
/// that directory.
pub open spec fn published_root(source: PagesSourceView) -> Option<Seq<char>> {
    if display_name_of(source.path) is Some && source.pages is Some && leads_to_tree(
        source.entries,
        components_of(source.pages->0),
    ) {
        Some(joined(components_of(source.pages->0), "/"@))
    } else {
        None
    }
}

/// What is done for one repository of a run: the scratch directory is
/// emptied first, whatever follows; then come the steps that publish the
/// repository's pages, unless the repository could not be read or its pages
/// are not published for another reason, which is the plan's error.
pub open spec fn plan_of(source: Option<PagesSourceView>, options: PagesOptionsView)
    -> RepoPlanView {
    let reset = seq![StepView::ResetScratch { dir: options.working_dir }];
    match source {
        Some(source) => match docs_outcome(source, options) {
            Ok(steps) => RepoPlanView {
                steps: reset + steps,
                skipped: match published_root(source) {
                    Some(root) => left_out(source.entries, root),
                    None => Seq::empty(),
                },
                error: None,
            },
            Err(error) => RepoPlanView { steps: reset, skipped: Seq::empty(), error: Some(error) },
        },
        None => RepoPlanView {
            steps: reset,
            skipped: Seq::empty(),
            error: Some(PagesError::Unreadable),
        },
    }
}

/// The steps that lay out in `working_dir` what the tree holds below
/// `root`.
pub fn copy_tree_to_dir(entries: &Vec<TreeEntry>, root: &str, working_dir: &str) -> (steps: Vec<
    PublishStep,
>)
    ensures
        steps.deep_view() == staged(entries.deep_view(), root@, working_dir@),
{
    let mut steps: Vec<PublishStep> = Vec::new();
    let mut i: usize = 0;
    while i < entries.len()
        invariant
            i <= entries.len(),
            steps.deep_view() == staged(entries.deep_view().take(i as int), root@, working_dir@),
        decreases entries.len() - i,
    {
        let entry = &entries[i];
        proof {
            let all = entries.deep_view();
            assert(all.take(i + 1).drop_last() =~= all.take(i as int));
        }
        match strip_root(entry.path.as_str(), root) {
            Some(rest) => {
                let path = join_path(working_dir, rest.as_str());
                if entry.kind.holds_file() {
                    steps.push(PublishStep::WriteFile { path, entry: i });
                } else if entry.kind.holds_tree() {
                    steps.push(PublishStep::CreateDir { path });
                }
            },
            None => {},
        }
        i = i + 1;
    }
    assert(entries.deep_view().take(entries.len() as int) =~= entries.deep_view());
    steps
}

/// The paths of the entries below `root` that are left out of the layout.
pub fn skipped_entries(entries: &Vec<TreeEntry>, root: &str) -> (paths: Vec<String>)
    ensures
        paths.deep_view() == left_out(entries.deep_view(), root@),
{
    let mut paths: Vec<String> = Vec::new();
    let mut i: usize = 0;
    while i < entries.len()
        invariant
            i <= entries.len(),
            paths.deep_view() == left_out(entries.deep_view().take(i as int), root@),
        decreases entries.len() - i,
    {
        let entry = &entries[i];
        proof {
            let all = entries.deep_view();
            assert(all.take(i + 1).drop_last() =~= all.take(i as int));
        }
        if !entry.kind.holds_file() && !entry.kind.holds_tree() {
            match strip_root(entry.path.as_str(), root) {
                Some(_) => {
                    paths.push(entry.path.clone());
                },
                None => {},
            }
        }
        i = i + 1;
    }
    assert(entries.deep_view().take(entries.len() as int) =~= entries.deep_view());
    paths
}

/// The steps that publish the pages of one repository, or the reason why
/// they are not published. A repository that names no pages directory has
/// nothing to publish, which is no error.
pub fn copy_docs_to_out_dir(source: &PagesSource, options: &PagesOptions) -> (outcome: Result<
    Vec<PublishStep>,
    PagesError,
>)
    ensures
        outcome is Ok <==> docs_outcome(source@, options@) is Ok,
        outcome is Ok ==> outcome->Ok_0.deep_view() == docs_outcome(source@, options@)->Ok_0,
        outcome is Err ==> outcome->Err_0 == docs_outcome(source@, options@)->Err_0,
{
    let name = match display_name(source.path.as_str()) {
        Some(name) => name,
        None => {
            return Err(PagesError::NoRepoName);
        },
    };
    let docs_dir = match &source.pages {
        Some(docs_dir) => docs_dir,
        None => {
            let nothing: Vec<PublishStep> = Vec::new();
            return Ok(nothing);
        },
    };
    let root = match find_root_of_docs_dir(docs_dir.as_str(), &source.entries) {
        Ok(root) => root,
        Err(error) => {
            return Err(error);
        },
    };
    let mut steps = copy_tree_to_dir(&source.entries, root.as_str(), options.working_dir.as_str());
    let target = join_path(options.out_dir.as_str(), name.as_str());
    steps.push(PublishStep::CreateTarget { path: target.clone() });
    steps.push(PublishStep::Exchange { scratch: options.working_dir.clone(), target });
    steps.push(PublishStep::RemoveScratch { dir: options.working_dir.clone() });
    Ok(steps)
}

/// What is done for one repository of a run.
pub fn plan_repo(source: &Option<PagesSource>, options: &PagesOptions) -> (plan: RepoPlan)
    ensures
        plan@ == plan_of(source.deep_view(), options@),
{
    let mut steps: Vec<PublishStep> = Vec::new();
    steps.push(PublishStep::ResetScratch { dir: options.working_dir.clone() });
    let ghost reset = seq![StepView::ResetScratch { dir: options.working_dir@ }];
    assert(steps.deep_view() =~= reset);
    let mut skipped: Vec<String> = Vec::new();
    assert(skipped.deep_view() =~= Seq::<Seq<char>>::empty());
    let error = match source {
        Some(source) => match copy_docs_to_out_dir(source, options) {
            Ok(mut more) => {
                let ghost rest = more.deep_view();
                steps.append(&mut more);
                assert(steps.deep_view() =~= reset + rest);
                match &source.pages {
                    Some(docs_dir) => match find_root_of_docs_dir(
                        docs_dir.as_str(),
                        &source.entries,
                    ) {
                        Ok(root) => {
                            skipped = skipped_entries(&source.entries, root.as_str());
                        },
                        Err(_) => {},
                    },
                    None => {},
                }
                None
            },
            Err(error) => Some(error),
        },
        None => Some(PagesError::Unreadable),
    };
    RepoPlan { steps, skipped, error }
}

/// What is done for each repository of a run, in order. A repository is
/// given as what was read of it, or as nothing where it could not be read.
/// What is wrong with one repository stops its own publishing and leaves
/// the others as they are.
pub fn build_pages_dirs(repos: &Vec<Option<PagesSource>>, options: &PagesOptions) -> (plans: Vec<
    RepoPlan,
>)
    ensures
        plans.deep_view() == repos.deep_view().map_values(
            |source: Option<PagesSourceView>| plan_of(source, options@),
        ),
{
    let mut plans: Vec<RepoPlan> = Vec::new();
    let mut i: usize = 0;
    while i < repos.len()
        invariant
            i <= repos.len(),
            plans@.len() == i,
            forall|k: int|
                0 <= k < i ==> (#[trigger] plans@[k])@ == plan_of(
                    repos@[k].deep_view(),
                    options@,
                ),
        decreases repos.len() - i,
    {
        plans.push(plan_repo(&repos[i], options));
        i = i + 1;
    }
    plans
}

} // verus!

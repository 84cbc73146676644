//! Renders the history of a source repository as a static site: a commit log,
//! one page per commit, a file browser, a refs listing and an index of
//! repositories, and plans the publishing of a repository's pages subtree.
//!
//! Every function here is pure: it takes what was read from a repository as
//! plain values and returns the text of pages and the steps to perform.
//! Reading repositories and writing files is left to the caller.
//!
//! The contracts are proved, down to the text of every page, from a few
//! functions that are taken on trust, each a private function with what is
//! claimed of it stated beside it: the markup of an element, of a document
//! and of escaped text (`build_html`, in [`html`]), the unified diff of two
//! texts (`gix`, in [`diff`]), a time as text (`gix-date`, in [`time`]), and
//! from the standard library `str::trim`, `str::from_utf8` and
//! `String::push` (in [`text`]).

pub mod commit;
pub mod diff;
pub mod files;
pub mod history;
pub mod html;
pub mod index;
pub mod meta;
pub mod model;
pub mod pages;
pub mod path;
pub mod publish;
pub mod refs;
pub mod site;
pub mod text;
pub mod time;

pub use crate::html::Bold;
pub use crate::index::{build_index_page, IndexOptions};
pub use crate::meta::Meta;
pub use crate::pages::{build_pages_dirs, PagesOptions};
pub use crate::path::to_root_path;
pub use crate::site::build_repo_pages;

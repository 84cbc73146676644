//! Unified diffs of two texts. The diff itself is `gix`'s.

use gix::diff::blob::unified_diff::{ConsumeBinaryHunk, ContextSize};
use gix::diff::blob::{Algorithm, Diff, InternedInput, UnifiedDiff};
use vstd::prelude::*;

verus! {

/// The most characters a text may have to be diffed: the diff counts lines
/// in 31 bits.
pub const MAX_DIFF_LEN: usize = 0x7fff_fffe;

/// The most lines of context that can be asked for.
pub const MAX_CONTEXT: u32 = 0x7fff_ffff;

/// What `gix::diff::blob::UnifiedDiff::consume` returns for the histogram
/// diff of the lines of `before` and `after`: the hunks in unified format,
/// each with `context` lines around the changes and a header line, with
/// `newline` after the header and after each line that does not end in it.
pub uninterp spec fn unified_diff_text(
    before: Seq<char>,
    after: Seq<char>,
    newline: Seq<char>,
    context: int,
) -> Seq<char>;

/// Diffs two texts by lines. Wraps `Diff::compute` with
/// `Algorithm::Histogram` on an `InternedInput` of the two texts, and
/// `UnifiedDiff::consume` into a `String` through `ConsumeBinaryHunk`; all
/// of `gix::diff::blob`. `Diff::compute` refuses inputs of `i32::MAX` lines
/// or more, and a text has no more lines than characters; `UnifiedDiff`
/// adds the context to line numbers in 32 bits. The result depends on the
/// arguments alone.
#[verifier::external_body]
fn render_unified_diff(before: &str, after: &str, newline: &str, context: u32) -> (text: String)
    requires
        before@.len() <= MAX_DIFF_LEN,
        after@.len() <= MAX_DIFF_LEN,
        context <= MAX_CONTEXT,
    ensures
        text@ == unified_diff_text(before@, after@, newline@, context as int),
{
    let input = InternedInput::new(before, after);
    let diff = Diff::compute(Algorithm::Histogram, &input);
    let sink = ConsumeBinaryHunk::new(String::new(), newline);
    UnifiedDiff::new(&diff, &input, sink, ContextSize::symmetrical(context))
        .consume()
        .unwrap_or_default()
}

/// The unified diff that leads from `before` to `after`.
pub fn unified_diff(before: &str, after: &str, newline: &str, context: u32) -> (text: String)
    requires
        before@.len() <= MAX_DIFF_LEN,
        after@.len() <= MAX_DIFF_LEN,
        context <= MAX_CONTEXT,
    ensures
        text@ == unified_diff_text(before@, after@, newline@, context as int),
{
    render_unified_diff(before, after, newline, context)
}

} // verus!

//! The course of publishing one repository, and what a reader of the
//! published directory can see while it runs.

use crate::model::TreeEntryView;
use crate::pages::{
    plan_of, publish_steps, published_root, staged, PagesOptionsView, PagesSourceView, PublishStep,
    StepView,
};
use crate::path::display_name_of;
use vstd::prelude::*;

verus! {

/// Where the publishing of one repository stands.
#[derive(Clone, Copy, Debug, PartialEq, Eq, Structural)]
pub enum PublishState {
    /// Nothing was done yet.
    Idle,
    /// The directory to publish is looked for in the head tree.
    ResolvingRoot,
    /// The directory is laid out in the scratch directory.
    Staging,
    /// The scratch directory is exchanged with the published one.
    Swapping,
    /// What the exchange left in the scratch directory is removed.
    Cleanup,
    /// The pages are published.
    Done,
    /// Something went wrong; the pages are as they were or, after the
    /// exchange, as they should be.
    Failed,
}

impl PublishState {
    /// Whether publishing has come to an end.
    pub open spec fn is_final(self) -> bool {
        self == PublishState::Done || self == PublishState::Failed
    }

    /// The state that follows when the work of this state went well, or
    /// did not. A state at the end stays as it is.
    pub open spec fn after(self, went_well: bool) -> PublishState {
        if self.is_final() {
            self
        } else if !went_well {
            PublishState::Failed
        } else {
            match self {
                PublishState::Idle => PublishState::ResolvingRoot,
                PublishState::ResolvingRoot => PublishState::Staging,
                PublishState::Staging => PublishState::Swapping,
                PublishState::Swapping => PublishState::Cleanup,
                _ => PublishState::Done,
            }
        }
    }

    /// The state after each of `outcomes` in turn.
    pub open spec fn after_all(self, outcomes: Seq<bool>) -> PublishState
        decreases outcomes.len(),
    {
        if outcomes.len() == 0 {
            self
        } else {
            self.after_all(outcomes.drop_last()).after(outcomes.last())
        }
    }

    /// Whether publishing has come to an end.
    pub fn finished(self) -> (done: bool)
        ensures
            done == self.is_final(),
    {
        matches!(self, PublishState::Done | PublishState::Failed)
    }

    /// The state that follows.
    pub fn advance(self, went_well: bool) -> (next: PublishState)
        ensures
            next == self.after(went_well),
    {
        match self {
            PublishState::Done => PublishState::Done,
            PublishState::Failed => PublishState::Failed,
            _ => if !went_well {
                PublishState::Failed
            } else {
                match self {
                    PublishState::Idle => PublishState::ResolvingRoot,
                    PublishState::ResolvingRoot => PublishState::Staging,
                    PublishState::Staging => PublishState::Swapping,
                    PublishState::Swapping => PublishState::Cleanup,
                    _ => PublishState::Done,
                }
            },
        }
    }
}

impl PublishState {
    /// How far publishing has come in this state.
    pub open spec fn rank(self) -> nat {
        match self {
            PublishState::Idle => 0,
            PublishState::ResolvingRoot => 1,
            PublishState::Staging => 2,
            PublishState::Swapping => 3,
            PublishState::Cleanup => 4,
            PublishState::Done => 5,
            PublishState::Failed => 6,
        }
    }
}

impl StepView {
    /// The state in which the step is taken: the scratch directory is
    /// emptied before publishing begins, files and directories are laid
    /// out while staging, the published directory is made and exchanged
    /// while swapping, and the scratch directory is removed in the cleanup.
    pub open spec fn state(self) -> PublishState {
        match self {
            StepView::ResetScratch { .. } => PublishState::Idle,
            StepView::CreateDir { .. } => PublishState::Staging,
            StepView::WriteFile { .. } => PublishState::Staging,
            StepView::CreateTarget { .. } => PublishState::Swapping,
            StepView::Exchange { .. } => PublishState::Swapping,
            StepView::RemoveScratch { .. } => PublishState::Cleanup,
        }
    }
}

impl PublishStep {
    /// The state in which the step is taken.
    pub fn state(&self) -> (state: PublishState)
        ensures
            state == self@.state(),
    {
        match self {
            PublishStep::ResetScratch { .. } => PublishState::Idle,
            PublishStep::CreateDir { .. } => PublishState::Staging,
            PublishStep::WriteFile { .. } => PublishState::Staging,
            PublishStep::CreateTarget { .. } => PublishState::Swapping,
            PublishStep::Exchange { .. } => PublishState::Swapping,
            PublishStep::RemoveScratch { .. } => PublishState::Cleanup,
        }
    }
}

/// Publishing that starts idle is done after `outcomes` exactly if these
/// are at least five and the first five all went well, and it has failed
/// exactly if one of the first five went wrong.
pub proof fn lemma_done_needs_every_phase(outcomes: Seq<bool>)
    ensures
        PublishState::Idle.after_all(outcomes) == PublishState::Done <==> outcomes.len() >= 5
            && forall|i: int| 0 <= i < 5 ==> outcomes[i],
        PublishState::Idle.after_all(outcomes) == PublishState::Failed <==> exists|i: int|
            0 <= i < outcomes.len() && i < 5 && !outcomes[i],
{
    lemma_state_by_count(outcomes);
}

/// As long as every outcome went well, the state counts the outcomes; once
/// one of the first five went wrong, publishing has failed.
proof fn lemma_state_by_count(outcomes: Seq<bool>)
    ensures
        (forall|i: int| 0 <= i < outcomes.len() && i < 5 ==> outcomes[i])
            ==> PublishState::Idle.after_all(outcomes) == (if outcomes.len() == 0 {
            PublishState::Idle
        } else if outcomes.len() == 1 {
            PublishState::ResolvingRoot
        } else if outcomes.len() == 2 {
            PublishState::Staging
        } else if outcomes.len() == 3 {
            PublishState::Swapping
        } else if outcomes.len() == 4 {
            PublishState::Cleanup
        } else {
            PublishState::Done
        }),
        (exists|i: int| 0 <= i < outcomes.len() && i < 5 && !outcomes[i])
            ==> PublishState::Idle.after_all(outcomes) == PublishState::Failed,
    decreases outcomes.len(),
{
    if outcomes.len() > 0 {
        let before = outcomes.drop_last();
        lemma_state_by_count(before);
        assert forall|i: int| 0 <= i < before.len() implies before[i] == outcomes[i] by {}
    }
}

/// The two directories of a publishing, each as the steps that laid out
/// what it holds.
pub struct Dirs {
    /// The published directory, which readers see.
    pub live: Seq<StepView>,
    /// The scratch directory.
    pub scratch: Seq<StepView>,
}

/// The directories after one step.
pub open spec fn after_step(dirs: Dirs, step: StepView) -> Dirs {
    match step {
        StepView::ResetScratch { .. } => Dirs { live: dirs.live, scratch: Seq::empty() },
        StepView::CreateDir { .. } => Dirs { live: dirs.live, scratch: dirs.scratch.push(step) },
        StepView::WriteFile { .. } => Dirs { live: dirs.live, scratch: dirs.scratch.push(step) },
        StepView::CreateTarget { .. } => dirs,
        StepView::Exchange { .. } => Dirs { live: dirs.scratch, scratch: dirs.live },
        StepView::RemoveScratch { .. } => Dirs { live: dirs.live, scratch: Seq::empty() },
    }
}

/// The directories after each of `steps` in turn.
pub open spec fn after_steps(dirs: Dirs, steps: Seq<StepView>) -> Dirs
    decreases steps.len(),
{
    if steps.len() == 0 {
        dirs
    } else {
        after_step(after_steps(dirs, steps.drop_last()), steps.last())
    }
}

/// Whether a step lays something out in the scratch directory.
pub open spec fn lays_out(step: StepView) -> bool {
    step is CreateDir || step is WriteFile
}

/// The run that publishes one directory: the scratch directory is emptied,
/// then come the steps of `publish_steps`.
pub open spec fn publish_run(
    entries: Seq<TreeEntryView>,
    root: Seq<char>,
    name: Seq<char>,
    out_dir: Seq<char>,
    scratch: Seq<char>,
) -> Seq<StepView> {
    seq![StepView::ResetScratch { dir: scratch }] + publish_steps(
        entries,
        root,
        name,
        out_dir,
        scratch,
    )
}

/// Where the pages of a repository are published, the steps of its plan
/// are the run that publishes the directory under the repository's name.
pub proof fn lemma_plan_is_a_run(source: PagesSourceView, options: PagesOptionsView)
    requires
        published_root(source) is Some,
    ensures
        plan_of(Some(source), options).error is None,
        plan_of(Some(source), options).steps == publish_run(
            source.entries,
            published_root(source)->0,
            display_name_of(source.path)->0,
            options.out_dir,
            options.working_dir,
        ),
{
}

/// Every step of a layout lays something out.
proof fn lemma_staged_lays_out(entries: Seq<TreeEntryView>, root: Seq<char>, scratch: Seq<char>)
    ensures
        forall|i: int|
            0 <= i < staged(entries, root, scratch).len() ==> lays_out(
                #[trigger] staged(entries, root, scratch)[i],
            ),
    decreases entries.len(),
{
    if entries.len() > 0 {
        lemma_staged_lays_out(entries.drop_last(), root, scratch);
        let all = staged(entries, root, scratch);
        let before = staged(entries.drop_last(), root, scratch);
        assert forall|i: int| 0 <= i < all.len() implies lays_out(#[trigger] all[i]) by {
            if i < before.len() {
                assert(all[i] == before[i]);
            }
        }
    }
}

/// After the scratch directory was emptied and the first `count` steps of
/// a layout were taken, the scratch directory holds what these steps laid
/// out and the published directory is as it was.
proof fn lemma_layout_fills_scratch(dirs: Dirs, dir: Seq<char>, layout: Seq<StepView>, count: int)
    requires
        0 <= count <= layout.len(),
        forall|i: int| 0 <= i < layout.len() ==> lays_out(#[trigger] layout[i]),
    ensures
        after_steps(dirs, seq![StepView::ResetScratch { dir }] + layout.take(count)) == (Dirs {
            live: dirs.live,
            scratch: layout.take(count),
        }),
    decreases count,
{
    let reset = seq![StepView::ResetScratch { dir }];
    if count == 0 {
        reveal_with_fuel(after_steps, 2);
        assert(layout.take(0) =~= Seq::<StepView>::empty());
    } else {
        lemma_layout_fills_scratch(dirs, dir, layout, count - 1);
        let run = reset + layout.take(count);
        assert(run.drop_last() =~= reset + layout.take(count - 1));
        assert(layout.take(count - 1).push(layout[count - 1]) =~= layout.take(count));
    }
}

/// Readers never see a directory that is half old and half new. Each step
/// is taken as a whole, the exchange too, which the file system does in one
/// operation. Then after any number of the steps of a run the published
/// directory holds either all of what it held before or all of the new
/// content; after the whole run it holds the new content, and the scratch
/// directory is empty.
pub proof fn lemma_readers_see_old_or_new(
    before: Dirs,
    entries: Seq<TreeEntryView>,
    root: Seq<char>,
    name: Seq<char>,
    out_dir: Seq<char>,
    scratch: Seq<char>,
    count: int,
)
    requires
        0 <= count <= publish_run(entries, root, name, out_dir, scratch).len(),
    ensures
        ({
            let run = publish_run(entries, root, name, out_dir, scratch);
            let now = after_steps(before, run.take(count));
            &&& now.live == before.live || now.live == staged(entries, root, scratch)
            &&& count == run.len() ==> now.live == staged(entries, root, scratch)
                && now.scratch.len() == 0
        }),
{
    let layout = staged(entries, root, scratch);
    let run = publish_run(entries, root, name, out_dir, scratch);
    let reset = seq![StepView::ResetScratch { dir: scratch }];
    let n = layout.len() as int;
    lemma_staged_lays_out(entries, root, scratch);
    if count == 0 {
    } else if count <= n + 1 {
        lemma_layout_fills_scratch(before, scratch, layout, count - 1);
        assert(run.take(count) =~= reset + layout.take(count - 1));
    } else {
        lemma_layout_fills_scratch(before, scratch, layout, n);
        assert(layout.take(n) =~= layout);
        let laid = run.take(n + 1);
        assert(laid =~= reset + layout.take(n));
        let created = run.take(n + 2);
        assert(created.drop_last() =~= laid);
        assert(after_steps(before, created) == (Dirs { live: before.live, scratch: layout }));
        if count >= n + 3 {
            let swapped = run.take(n + 3);
            assert(swapped.drop_last() =~= created);
            assert(after_steps(before, swapped) == (Dirs { live: layout, scratch: before.live }));
            if count == n + 4 {
                let all = run.take(n + 4);
                assert(all.drop_last() =~= swapped);
            }
        }
    }
}

/// The steps of a run pass through the states in order: no step is taken
/// in a state that lies before the state of an earlier step. So nothing
/// is exchanged before everything is laid out, and nothing is removed
/// before the exchange.
pub proof fn lemma_run_keeps_the_order(
    entries: Seq<TreeEntryView>,
    root: Seq<char>,
    name: Seq<char>,
    out_dir: Seq<char>,
    scratch: Seq<char>,
    first: int,
    second: int,
)
    requires
        0 <= first <= second < publish_run(entries, root, name, out_dir, scratch).len(),
    ensures
        publish_run(entries, root, name, out_dir, scratch)[first].state().rank() <= publish_run(
            entries,
            root,
            name,
            out_dir,
            scratch,
        )[second].state().rank(),
{
    lemma_staged_lays_out(entries, root, scratch);
}

} // verus!

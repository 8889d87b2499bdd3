//! Whole runs: what sequences of events lead to, and what holds of every
//! state that a run can reach.

use vstd::prelude::*;
use crate::branches::tracking_names;
use crate::pipeline::{
    lemma_tracking_names_have_short_names, ActionView, EventView, Failure, Model, Stage,
};

verus! {

/// The run after the events of `events`, taken in order.
pub open spec fn run(start: Model, events: Seq<EventView>) -> Model
    decreases events.len(),
{
    if events.len() == 0 {
        start
    } else {
        run(start, events.drop_last()).step(events.last())
    }
}

/// The events of working through branches one after the other, where
/// `checked_out` says of each whether its checkout succeeds and every
/// copy succeeds: a checkout followed by a copy, or a failed checkout.
pub open spec fn branch_events(checked_out: Seq<bool>) -> Seq<EventView>
    decreases checked_out.len(),
{
    if checked_out.len() == 0 {
        Seq::empty()
    } else if checked_out.last() {
        branch_events(checked_out.drop_last()) + seq![EventView::CheckedOut, EventView::Copied]
    } else {
        branch_events(checked_out.drop_last()) + seq![EventView::CheckoutFailed]
    }
}

/// The events of a run that goes through: the clone succeeds and lists
/// `names`, the branches are worked through, and the working tree is
/// removed.
pub open spec fn complete_events(names: Seq<Seq<char>>, checked_out: Seq<bool>) -> Seq<
    EventView,
> {
    seq![EventView::Cloned(names)] + branch_events(checked_out) + seq![EventView::Removed]
}

/// Whether `dir` is the directory of a branch whose tree was copied.
pub open spec fn is_copied_dir(m: Model, dir: Seq<char>) -> bool {
    exists|i: int| 0 <= i < m.outcomes.len() && m.outcomes[i] && #[trigger] m.output_dir(i) == dir
}

/// Whatever happens, a run stays well-formed.
pub proof fn law_step_keeps_wf(m: Model, event: EventView)
    requires
        m.wf(),
    ensures
        m.step(event).wf(),
{
    if let EventView::Cloned(names) = event {
        lemma_tracking_names_have_short_names(names);
    }
}

/// Whatever sequence of events arrives, a run stays well-formed.
pub proof fn law_run_keeps_wf(start: Model, events: Seq<EventView>)
    requires
        start.wf(),
    ensures
        run(start, events).wf(),
    decreases events.len(),
{
    if events.len() > 0 {
        law_run_keeps_wf(start, events.drop_last());
        law_step_keeps_wf(run(start, events.drop_last()), events.last());
    }
}

/// Target and, once found, the branches of a run never change; the
/// outcomes noted are never taken back.
pub proof fn law_step_keeps_history(m: Model, event: EventView)
    requires
        m.wf(),
    ensures
        m.step(event).source == m.source,
        m.step(event).root == m.root,
        m.step(event).repo == m.repo,
        !(m.stage is Init) ==> m.step(event).branches == m.branches,
        m.outcomes.is_prefix_of(m.step(event).outcomes),
        m.step(event).outcomes.len() <= m.outcomes.len() + 1,
{
}

/// The working tree outlives the work on the branches: its removal is
/// due only when every branch has been dealt with, and a run is done only
/// once the removal has been reported.
pub proof fn law_removal_comes_last(m: Model, event: EventView)
    requires
        m.wf(),
    ensures
        m.pending() is RemoveWorkDir ==> m.outcomes.len() == m.branches.len(),
        m.pending() is RemoveWorkDir ==> m.pending() == (ActionView::RemoveWorkDir {
            path: m.work_dir(),
        }),
        m.step(event).stage is Done && !(m.stage is Done) ==> m.pending() is RemoveWorkDir
            && event is Removed,
{
}

/// A failed checkout costs only its branch; any other failure ends the
/// run, and so does success of the removal. From an end, nothing moves.
pub proof fn law_failures(m: Model, event: EventView)
    requires
        m.wf(),
    ensures
        m.stage is CheckingOut && event is CheckoutFailed ==> !(m.step(event).stage is Failed)
            && m.step(event).outcomes == m.outcomes.push(false),
        m.stage is Init && event is CloneFailed ==> m.step(event).stage == Stage::Failed(
            Failure::CloneFailed,
        ) && m.step(event).outputs() == Seq::<Seq<char>>::empty(),
        m.stage is Copying && event is CopyFailed ==> m.step(event).stage == Stage::Failed(
            Failure::CopyFailed,
        ) && m.step(event).outputs() == m.outputs(),
        m.stage is Cleaning && event is RemoveFailed ==> m.step(event).stage == Stage::Failed(
            Failure::CleanupFailed,
        ),
        m.stage is Done || m.stage is Failed ==> m.step(event) == m && m.reply(event)
            is Refuse,
{
    lemma_outputs_ignore_stage(m, Stage::Failed(Failure::CopyFailed));
}

/// The outputs are exactly the directories of the branches whose tree
/// was copied: each such branch has its directory among them, and each
/// of them is the directory of such a branch.
pub proof fn law_outputs(m: Model)
    requires
        m.wf(),
    ensures
        forall|i: int|
            0 <= i < m.outcomes.len() && m.outcomes[i] ==> m.outputs().contains(
                #[trigger] m.output_dir(i),
            ),
        forall|k: int|
            0 <= k < m.outputs().len() ==> is_copied_dir(m, #[trigger] m.outputs()[k]),
        m.outputs().len() <= m.outcomes.len(),
    decreases m.outcomes.len(),
{
    if m.outcomes.len() > 0 {
        let last = m.outcomes.len() - 1;
        let before = Model { outcomes: m.outcomes.drop_last(), ..m };
        let stage = if before.outcomes.len() < before.branches.len() {
            Stage::CheckingOut
        } else {
            Stage::Cleaning
        };
        let earlier = before.at(stage);
        lemma_outputs_ignore_stage(before, stage);
        law_outputs(earlier);
        assert forall|i: int| 0 <= i < m.outcomes.len() && m.outcomes[i] implies m.outputs().contains(
            #[trigger] m.output_dir(i),
        ) by {
            if i < last {
                assert(earlier.outcomes[i]);
                assert(earlier.outputs().contains(earlier.output_dir(i)));
                let k = choose|k: int|
                    0 <= k < earlier.outputs().len() && earlier.outputs()[k] == earlier.output_dir(
                        i,
                    );
                assert(m.outputs()[k] == m.output_dir(i));
            } else {
                assert(m.outputs()[m.outputs().len() - 1] == m.output_dir(i));
            }
        }
        assert forall|k: int| 0 <= k < m.outputs().len() implies is_copied_dir(
            m,
            #[trigger] m.outputs()[k],
        ) by {
            if k < earlier.outputs().len() {
                assert(is_copied_dir(earlier, earlier.outputs()[k]));
                let i = choose|i: int|
                    0 <= i < earlier.outcomes.len() && earlier.outcomes[i]
                        && #[trigger] earlier.output_dir(i) == earlier.outputs()[k];
                assert(m.outcomes[i] && m.output_dir(i) == m.outputs()[k]);
            } else {
                assert(m.outcomes[last] && m.output_dir(last) == m.outputs()[k]);
            }
        }
    }
}

/// The outputs depend on branches and outcomes, not on the stage.
pub proof fn lemma_outputs_ignore_stage(m: Model, stage: Stage)
    ensures
        m.at(stage).outputs() == m.outputs(),
    decreases m.outcomes.len(),
{
    if m.outcomes.len() > 0 {
        let before = Model { outcomes: m.outcomes.drop_last(), ..m };
        lemma_outputs_ignore_stage(before, stage);
        assert(Model { outcomes: m.at(stage).outcomes.drop_last(), ..m.at(stage) } == before.at(
            stage,
        ));
    }
}

/// Events taken in two parts lead where they lead taken at once.
pub proof fn lemma_run_in_parts(start: Model, first: Seq<EventView>, second: Seq<EventView>)
    ensures
        run(start, first + second) == run(run(start, first), second),
    decreases second.len(),
{
    if second.len() == 0 {
        assert(first + second =~= first);
    } else {
        lemma_run_in_parts(start, first, second.drop_last());
        assert((first + second).drop_last() =~= first + second.drop_last());
        assert((first + second).last() == second.last());
    }
}

/// Working through the first branches of a freshly cloned repository
/// notes exactly their outcomes and leaves the next branch due, or
/// cleanup after the last.
pub proof fn lemma_branches_worked(cloned: Model, checked_out: Seq<bool>)
    requires
        cloned.wf(),
        cloned.outcomes.len() == 0,
        cloned.stage is CheckingOut || cloned.stage is Cleaning,
        checked_out.len() <= cloned.branches.len(),
    ensures
        run(cloned, branch_events(checked_out)) == (Model {
            outcomes: checked_out,
            stage: if checked_out.len() < cloned.branches.len() {
                Stage::CheckingOut
            } else {
                Stage::Cleaning
            },
            ..cloned
        }),
    decreases checked_out.len(),
{
    if checked_out.len() == 0 {
        assert(cloned.outcomes =~= checked_out);
    } else {
        let earlier = checked_out.drop_last();
        lemma_branches_worked(cloned, earlier);
        let at_branch = run(cloned, branch_events(earlier));
        if checked_out.last() {
            let tail = seq![EventView::CheckedOut, EventView::Copied];
            lemma_run_in_parts(cloned, branch_events(earlier), tail);
            assert(tail.drop_last() =~= seq![EventView::CheckedOut]);
            assert(tail.drop_last().drop_last() =~= Seq::<EventView>::empty());
            assert(run(at_branch, tail.drop_last().drop_last()) == at_branch);
            assert(run(at_branch, tail.drop_last()) == at_branch.step(EventView::CheckedOut));
            assert(run(at_branch, tail) == at_branch.step(EventView::CheckedOut).step(
                EventView::Copied,
            ));
            assert(earlier.push(true) =~= checked_out);
        } else {
            let tail = seq![EventView::CheckoutFailed];
            lemma_run_in_parts(cloned, branch_events(earlier), tail);
            assert(tail.drop_last() =~= Seq::<EventView>::empty());
            assert(run(at_branch, tail.drop_last()) == at_branch);
            assert(run(at_branch, tail) == at_branch.step(EventView::CheckoutFailed));
            assert(earlier.push(false) =~= checked_out);
        }
    }
}

/// A run that goes through ends done, with the working tree removed as
/// its last act, and has produced exactly the directories of the branches
/// whose checkout did not fail: whatever the repository lists and
/// whichever checkouts fail.
pub proof fn law_complete_run(
    source: Seq<char>,
    root: Seq<char>,
    repo: Seq<char>,
    names: Seq<Seq<char>>,
    checked_out: Seq<bool>,
)
    requires
        checked_out.len() == tracking_names(names).len(),
    ensures
        ({
            let start = Model::initial(source, root, repo);
            let events = complete_events(names, checked_out);
            let end = run(start, events);
            &&& end.stage is Done
            &&& end.branches == tracking_names(names)
            &&& end.outcomes == checked_out
            &&& run(start, events.drop_last()).pending() == (ActionView::RemoveWorkDir {
                path: work_dir_of_model(source, root, repo),
            })
            &&& forall|i: int|
                0 <= i < checked_out.len() && checked_out[i] ==> end.outputs().contains(
                    #[trigger] end.output_dir(i),
                )
            &&& forall|k: int|
                0 <= k < end.outputs().len() ==> is_copied_dir(end, #[trigger] end.outputs()[k])
        }),
{
    let start = Model::initial(source, root, repo);
    let events = complete_events(names, checked_out);
    let opening = seq![EventView::Cloned(names)];
    let closing = seq![EventView::Removed];
    assert(opening.drop_last() =~= Seq::<EventView>::empty());
    assert(run(start, opening.drop_last()) == start);
    let cloned = start.step(EventView::Cloned(names));
    assert(run(start, opening) == cloned);
    law_step_keeps_wf(start, EventView::Cloned(names));
    lemma_run_in_parts(start, opening, branch_events(checked_out));
    lemma_branches_worked(cloned, checked_out);
    let worked = run(start, opening + branch_events(checked_out));
    assert(events.drop_last() =~= opening + branch_events(checked_out));
    assert(events.last() == EventView::Removed);
    let end = run(start, events);
    assert(end == worked.step(EventView::Removed));
    law_run_keeps_wf(start, events);
    law_outputs(end);
}

/// The working tree of a run for the given target.
pub open spec fn work_dir_of_model(source: Seq<char>, root: Seq<char>, repo: Seq<char>) -> Seq<
    char,
> {
    Model::initial(source, root, repo).work_dir()
}

} // verus!

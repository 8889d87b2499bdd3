//! The run as a state machine: which step comes next, what each outcome
//! of a step leads to, and what a finished run has produced.
//!
//! The machine itself touches nothing. It names the next action; whoever
//! drives it carries the action out and reports what happened.

use vstd::prelude::*;
use crate::branches::{
    all_wf, full_names, qualified_name, qualified_name_of, remote_branches, short_name_of, texts,
    tracking_names, RemoteBranchRef,
};
use crate::checkout::CheckoutStage;
use crate::target::{output_dir_of, work_dir_of, CloneTarget};

verus! {

/// Why a run was given up.
#[derive(Clone, Copy, Debug, PartialEq, Eq, Structural)]
pub enum Failure {
    /// The repository could not be cloned. Nothing has been produced.
    CloneFailed,
    /// A checked-out tree could not be copied to its directory. What
    /// earlier branches produced stays in place.
    CopyFailed,
    /// The working tree could not be removed after the last branch.
    CleanupFailed,
}

/// Where a run stands, named after the work that is due.
#[derive(Clone, Copy, Debug, PartialEq, Eq, Structural)]
pub enum Stage {
    /// Nothing has happened yet; the clone is due.
    Init,
    /// The next branch is to be checked out into the working tree.
    CheckingOut,
    /// The branch just checked out is to be copied to its directory.
    Copying,
    /// All branches are dealt with; the working tree is to be removed.
    Cleaning,
    /// The run has ended well.
    Done,
    /// The run has been given up.
    Failed(Failure),
}

/// What can happen to the action that is due.
pub enum EventView {
    Cloned(Seq<Seq<char>>),
    CloneFailed,
    CheckedOut,
    CheckoutFailed,
    Copied,
    CopyFailed,
    Removed,
    RemoveFailed,
}

/// An action, in terms of the text it carries.
pub enum ActionView {
    CloneRepo { url: Seq<char>, into: Seq<char> },
    CheckoutBranch { name: Seq<char> },
    CopyTree { from: Seq<char>, to: Seq<char> },
    RemoveWorkDir { path: Seq<char> },
    Finish,
    Abort(Failure),
    Refuse,
}

/// A run in mathematical terms.
pub struct Model {
    /// The locator of the source repository.
    pub source: Seq<char>,
    /// The folder that the output is put in.
    pub root: Seq<char>,
    /// The repository name.
    pub repo: Seq<char>,
    /// The full names of the remote-tracking branches, in the order in
    /// which they were listed.
    pub branches: Seq<Seq<char>>,
    /// For each branch dealt with so far, in order: whether its tree was
    /// copied (`true`) or the branch was passed over because its checkout
    /// failed (`false`).
    pub outcomes: Seq<bool>,
    /// Where the run stands.
    pub stage: Stage,
}

impl Model {
    /// A run of which nothing has happened yet.
    pub open spec fn initial(source: Seq<char>, root: Seq<char>, repo: Seq<char>) -> Model {
        Model {
            source,
            root,
            repo,
            branches: Seq::empty(),
            outcomes: Seq::empty(),
            stage: Stage::Init,
        }
    }

    /// What holds of every run: each branch has a short name; the
    /// outcomes are those of the branches before the current one; a
    /// branch is being worked on only while one is left; and cleanup
    /// comes only when none is.
    pub open spec fn wf(self) -> bool {
        &&& forall|i: int|
            0 <= i < self.branches.len() ==> short_name_of(#[trigger] self.branches[i]) is Some
        &&& self.outcomes.len() <= self.branches.len()
        &&& match self.stage {
            Stage::Init => self.branches.len() == 0,
            Stage::CheckingOut => self.outcomes.len() < self.branches.len(),
            Stage::Copying => self.outcomes.len() < self.branches.len(),
            Stage::Cleaning => self.outcomes.len() == self.branches.len(),
            Stage::Done => self.outcomes.len() == self.branches.len(),
            Stage::Failed(Failure::CloneFailed) => self.branches.len() == 0,
            Stage::Failed(Failure::CopyFailed) => self.outcomes.len() < self.branches.len(),
            Stage::Failed(Failure::CleanupFailed) => self.outcomes.len() == self.branches.len(),
        }
    }

    /// The temporary working tree.
    pub open spec fn work_dir(self) -> Seq<char> {
        work_dir_of(self.root, self.repo)
    }

    /// The directory that branch number `i` is copied to.
    pub open spec fn output_dir(self, i: int) -> Seq<char> {
        output_dir_of(self.root, self.repo, short_name_of(self.branches[i]).unwrap())
    }

    /// Whether `event` answers the action that is due.
    pub open spec fn accepts(self, event: EventView) -> bool {
        match self.stage {
            Stage::Init => event is Cloned || event is CloneFailed,
            Stage::CheckingOut => event is CheckedOut || event is CheckoutFailed,
            Stage::Copying => event is Copied || event is CopyFailed,
            Stage::Cleaning => event is Removed || event is RemoveFailed,
            Stage::Done => false,
            Stage::Failed(_) => false,
        }
    }

    /// The run with its stage replaced.
    pub open spec fn at(self, stage: Stage) -> Model {
        Model { stage, ..self }
    }

    /// The run after the current branch has been dealt with: its outcome
    /// is noted, and the next branch is due, or cleanup after the last.
    pub open spec fn advance(self, copied: bool) -> Model {
        Model {
            outcomes: self.outcomes.push(copied),
            stage: if self.outcomes.len() + 1 < self.branches.len() {
                Stage::CheckingOut
            } else {
                Stage::Cleaning
            },
            ..self
        }
    }

    /// The run after `event`. An event that does not answer the action
    /// that is due changes nothing.
    pub open spec fn step(self, event: EventView) -> Model {
        match (self.stage, event) {
            (Stage::Init, EventView::Cloned(names)) => Model {
                branches: tracking_names(names),
                outcomes: Seq::empty(),
                stage: if tracking_names(names).len() > 0 {
                    Stage::CheckingOut
                } else {
                    Stage::Cleaning
                },
                ..self
            },
            (Stage::Init, EventView::CloneFailed) => self.at(Stage::Failed(Failure::CloneFailed)),
            (Stage::CheckingOut, EventView::CheckedOut) => self.at(Stage::Copying),
            (Stage::CheckingOut, EventView::CheckoutFailed) => self.advance(false),
            (Stage::Copying, EventView::Copied) => self.advance(true),
            (Stage::Copying, EventView::CopyFailed) => self.at(Stage::Failed(Failure::CopyFailed)),
            (Stage::Cleaning, EventView::Removed) => self.at(Stage::Done),
            (Stage::Cleaning, EventView::RemoveFailed) => self.at(
                Stage::Failed(Failure::CleanupFailed),
            ),
            _ => self,
        }
    }

    /// The action that is due.
    pub open spec fn pending(self) -> ActionView {
        match self.stage {
            Stage::Init => ActionView::CloneRepo { url: self.source, into: self.work_dir() },
            Stage::CheckingOut => ActionView::CheckoutBranch {
                name: self.branches[self.outcomes.len() as int],
            },
            Stage::Copying => ActionView::CopyTree {
                from: self.work_dir(),
                to: self.output_dir(self.outcomes.len() as int),
            },
            Stage::Cleaning => ActionView::RemoveWorkDir { path: self.work_dir() },
            Stage::Done => ActionView::Finish,
            Stage::Failed(failure) => ActionView::Abort(failure),
        }
    }

    /// What `step` answers `event` with: the action that is then due, or
    /// a refusal where the event does not answer the action that was.
    pub open spec fn reply(self, event: EventView) -> ActionView {
        if self.accepts(event) {
            self.step(event).pending()
        } else {
            ActionView::Refuse
        }
    }

    /// The words that announce work on the current branch.
    pub open spec fn working_notice(self) -> Seq<char> {
        "working on branch "@ + qualified_name_of(self.branches[self.outcomes.len() as int])
            + "\n"@
    }

    /// The words that report the current branch as passed over.
    pub open spec fn skip_notice(self) -> Seq<char> {
        " Failed to checkout branch "@ + qualified_name_of(
            self.branches[self.outcomes.len() as int],
        )
    }

    /// What is to be shown when `event` arrives: that the current branch
    /// is passed over, where its checkout failed, and then the
    /// announcement of the branch that work turns to, if any.
    pub open spec fn notice(self, event: EventView) -> Seq<char> {
        let skipped = if self.stage is CheckingOut && event is CheckoutFailed {
            self.skip_notice()
        } else {
            Seq::empty()
        };
        let next = self.step(event);
        let turned = if self.accepts(event) && next.stage is CheckingOut {
            next.working_notice()
        } else {
            Seq::empty()
        };
        skipped + turned
    }

    /// The directories produced so far, in order: one for each branch
    /// whose tree was copied.
    pub open spec fn outputs(self) -> Seq<Seq<char>>
        decreases self.outcomes.len(),
    {
        if self.outcomes.len() == 0 {
            Seq::empty()
        } else {
            let before = Model { outcomes: self.outcomes.drop_last(), ..self };
            if self.outcomes.last() {
                before.outputs().push(self.output_dir(self.outcomes.len() - 1))
            } else {
                before.outputs()
            }
        }
    }
}

/// What happened to the action that was due.
#[derive(Clone, Debug, PartialEq, Eq)]
pub enum Event {
    /// The clone succeeded; these are the full names of the references
    /// that the repository lists as remote branches, in its order.
    Cloned(Vec<String>),
    /// The clone failed.
    CloneFailed,
    /// The branch was checked out into the working tree.
    CheckedOut,
    /// The branch could not be checked out.
    CheckoutFailed,
    /// The working tree was copied to the branch's directory.
    Copied,
    /// The working tree could not be copied.
    CopyFailed,
    /// The working tree was removed.
    Removed,
    /// The working tree could not be removed.
    RemoveFailed,
}

impl View for Event {
    type V = EventView;

    open spec fn view(&self) -> EventView {
        match self {
            Event::Cloned(names) => EventView::Cloned(texts(names@)),
            Event::CloneFailed => EventView::CloneFailed,
            Event::CheckedOut => EventView::CheckedOut,
            Event::CheckoutFailed => EventView::CheckoutFailed,
            Event::Copied => EventView::Copied,
            Event::CopyFailed => EventView::CopyFailed,
            Event::Removed => EventView::Removed,
            Event::RemoveFailed => EventView::RemoveFailed,
        }
    }
}

/// What is to be done next.
#[derive(Clone, Debug, PartialEq, Eq)]
pub enum Action {
    /// Clone the repository at `url` into the directory `into`.
    CloneRepo { url: String, into: String },
    /// Check the branch with this full name out into the working tree.
    CheckoutBranch { name: String },
    /// Copy what is in `from` into `to`.
    CopyTree { from: String, to: String },
    /// Remove the working tree at `path`.
    RemoveWorkDir { path: String },
    /// Nothing is left to do.
    Finish,
    /// Give up.
    Abort(Failure),
    /// The event did not answer the action that was due; nothing changed.
    Refuse,
}

impl View for Action {
    type V = ActionView;

    open spec fn view(&self) -> ActionView {
        match self {
            Action::CloneRepo { url, into } => ActionView::CloneRepo { url: url@, into: into@ },
            Action::CheckoutBranch { name } => ActionView::CheckoutBranch { name: name@ },
            Action::CopyTree { from, to } => ActionView::CopyTree { from: from@, to: to@ },
            Action::RemoveWorkDir { path } => ActionView::RemoveWorkDir { path: path@ },
            Action::Finish => ActionView::Finish,
            Action::Abort(failure) => ActionView::Abort(*failure),
            Action::Refuse => ActionView::Refuse,
        }
    }
}

/// The answer to an event: what to show, and what to do next.
#[derive(Clone, Debug, PartialEq, Eq)]
pub struct Step {
    /// Text for the console; empty where there is nothing to say.
    pub notice: String,
    /// The action that is now due.
    pub action: Action,
}

/// A run: the target, the branches found, and how far work has come.
#[derive(Debug)]
pub struct Pipeline {
    target: CloneTarget,
    branches: Vec<RemoteBranchRef>,
    outcomes: Vec<bool>,
    stage: Stage,
}

impl View for Pipeline {
    type V = Model;

    closed spec fn view(&self) -> Model {
        Model {
            source: self.target.source(),
            root: self.target.root(),
            repo: self.target.repo(),
            branches: full_names(self.branches@),
            outcomes: self.outcomes@,
            stage: self.stage,
        }
    }
}

impl Pipeline {
    #[verifier::type_invariant]
    spec fn inv(&self) -> bool {
        all_wf(self.branches@) && self@.wf()
    }

    /// A run for `target` of which nothing has happened yet.
    pub fn new(target: CloneTarget) -> (run: Pipeline)
        ensures
            run@ == Model::initial(target.source(), target.root(), target.repo()),
            run@.wf(),
    {
        let run = Pipeline {
            target,
            branches: Vec::new(),
            outcomes: Vec::new(),
            stage: Stage::Init,
        };
        assert(full_names(run.branches@) =~= Seq::<Seq<char>>::empty());
        run
    }

    /// Where the run stands.
    pub fn stage(&self) -> (stage: Stage)
        ensures
            stage == self@.stage,
            self@.wf(),
    {
        proof {
            use_type_invariant(self);
        }
        self.stage
    }

    /// The action that is due.
    pub fn pending(&self) -> (action: Action)
        ensures
            action@ == self@.pending(),
    {
        proof {
            use_type_invariant(self);
        }
        match self.stage {
            Stage::Init => Action::CloneRepo {
                url: self.target.source_url().to_owned(),
                into: self.target.work_dir(),
            },
            Stage::CheckingOut => {
                let branch = &self.branches[self.outcomes.len()];
                Action::CheckoutBranch { name: branch.full_name.clone() }
            },
            Stage::Copying => {
                let branch = &self.branches[self.outcomes.len()];
                assert(branch.wf());
                Action::CopyTree {
                    from: self.target.work_dir(),
                    to: self.target.output_dir(branch.short_name.as_str()),
                }
            },
            Stage::Cleaning => Action::RemoveWorkDir { path: self.target.work_dir() },
            Stage::Done => Action::Finish,
            Stage::Failed(failure) => Action::Abort(failure),
        }
    }

    /// The target of the run.
    pub fn target(&self) -> (target: &CloneTarget)
        ensures
            target.source() == self@.source,
            target.root() == self@.root,
            target.repo() == self@.repo,
    {
        &self.target
    }

    /// The remote-tracking branches found, in the order in which they
    /// were listed; none before the clone.
    pub fn branches(&self) -> (branches: &Vec<RemoteBranchRef>)
        ensures
            full_names(branches@) == self@.branches,
            all_wf(branches@),
    {
        proof {
            use_type_invariant(self);
        }
        &self.branches
    }

    /// For each branch dealt with so far, whether its tree was copied.
    pub fn outcomes(&self) -> (outcomes: &Vec<bool>)
        ensures
            outcomes@ == self@.outcomes,
    {
        &self.outcomes
    }

    /// The directories produced so far, in order: one for each branch
    /// whose tree was copied.
    pub fn outputs(&self) -> (dirs: Vec<String>)
        ensures
            texts(dirs@) == self@.outputs(),
    {
        proof {
            use_type_invariant(self);
        }
        let mut dirs: Vec<String> = Vec::new();
        let mut i: usize = 0;
        assert(texts(dirs@) =~= Seq::<Seq<char>>::empty());
        while i < self.outcomes.len()
            invariant
                i <= self.outcomes.len() <= self.branches.len(),
                all_wf(self.branches@),
                texts(dirs@) == (Model { outcomes: self@.outcomes.take(i as int), ..self@ }).outputs(),
            decreases self.outcomes.len() - i,
        {
            let ghost upto = Model { outcomes: self@.outcomes.take(i + 1), ..self@ };
            assert(upto.outcomes.drop_last() =~= self@.outcomes.take(i as int));
            assert(upto.outcomes.last() == self.outcomes@[i as int]);
            if self.outcomes[i] {
                let branch = &self.branches[i];
                assert(branch.wf());
                let ghost before = dirs@;
                let dir = self.target.output_dir(branch.short_name.as_str());
                dirs.push(dir);
                assert(texts(dirs@) =~= texts(before).push(dir@));
            }
            i = i + 1;
        }
        assert(self@.outcomes.take(i as int) =~= self@.outcomes);
        dirs
    }

    /// Takes in what happened to the action that was due and answers with
    /// the run as it then stands, the text to show and the action that is
    /// due next. An event that does not answer the action that was due
    /// leaves the run as it was and is refused.
    pub fn step(self, event: Event) -> (next: (Pipeline, Step))
        ensures
            next.0@ == self@.step(event@),
            next.0@.wf(),
            next.1.notice@ == self@.notice(event@),
            next.1.action@ == self@.reply(event@),
    {
        proof {
            use_type_invariant(&self);
        }
        let ghost before = self@;
        let Pipeline { target, branches, outcomes, stage } = self;
        let mut branches = branches;
        let mut outcomes = outcomes;
        let mut notice = String::new();
        let mut accepted = true;
        let mut stage_after = stage;
        match stage {
            Stage::Init => match event {
                Event::Cloned(names) => {
                    branches = remote_branches(&names);
                    outcomes = Vec::new();
                    stage_after =
                    if branches.len() > 0 {
                        Stage::CheckingOut
                    } else {
                        Stage::Cleaning
                    };
                    proof {
                        lemma_tracking_names_have_short_names(texts(names@));
                    }
                },
                Event::CloneFailed => {
                    stage_after = Stage::Failed(Failure::CloneFailed);
                },
                _ => {
                    accepted = false;
                },
            },
            Stage::CheckingOut => match event {
                Event::CheckedOut => {
                    stage_after = Stage::Copying;
                },
                Event::CheckoutFailed => {
                    notice.append(" Failed to checkout branch ");
                    notice.append(qualified_name(branches[outcomes.len()].full_name.as_str()));
                    outcomes.push(false);
                    stage_after =
                    if outcomes.len() < branches.len() {
                        Stage::CheckingOut
                    } else {
                        Stage::Cleaning
                    };
                },
                _ => {
                    accepted = false;
                },
            },
            Stage::Copying => match event {
                Event::Copied => {
                    outcomes.push(true);
                    stage_after =
                    if outcomes.len() < branches.len() {
                        Stage::CheckingOut
                    } else {
                        Stage::Cleaning
                    };
                },
                Event::CopyFailed => {
                    stage_after = Stage::Failed(Failure::CopyFailed);
                },
                _ => {
                    accepted = false;
                },
            },
            Stage::Cleaning => match event {
                Event::Removed => {
                    stage_after = Stage::Done;
                },
                Event::RemoveFailed => {
                    stage_after = Stage::Failed(Failure::CleanupFailed);
                },
                _ => {
                    accepted = false;
                },
            },
            Stage::Done => {
                accepted = false;
            },
            Stage::Failed(_) => {
                accepted = false;
            },
        }
        let ghost skipped = notice@;
        if accepted {
            match stage_after {
                Stage::CheckingOut => {
                    notice.append("working on branch ");
                    notice.append(qualified_name(branches[outcomes.len()].full_name.as_str()));
                    notice.append("\n");
                },
                _ => {},
            }
        }
        let run = Pipeline { target, branches, outcomes, stage: stage_after };
        assert(run@ == before.step(event@));
        assert(accepted == before.accepts(event@));
        assert(notice@ =~= before.notice(event@));
        let action = if accepted {
            run.pending()
        } else {
            Action::Refuse
        };
        (run, Step { notice, action })
    }
}

/// Every name that `tracking_names` keeps has a short name.
pub proof fn lemma_tracking_names_have_short_names(names: Seq<Seq<char>>)
    ensures
        forall|i: int|
            0 <= i < tracking_names(names).len() ==> short_name_of(
                #[trigger] tracking_names(names)[i],
            ) is Some,
        tracking_names(names).len() <= names.len(),
    decreases names.len(),
{
    if names.len() > 0 {
        lemma_tracking_names_have_short_names(names.drop_last());
    }
}

/// What the end of a branch's checkout means to the run: a finished
/// checkout reports the branch as checked out, a failed one as not, and
/// one that is still under way reports nothing.
pub fn checkout_event(stage: CheckoutStage) -> (event: Option<Event>)
    ensures
        stage is Done ==> event == Some(Event::CheckedOut),
        stage is Failed ==> event == Some(Event::CheckoutFailed),
        !(stage is Done) && !(stage is Failed) ==> event is None,
{
    match stage {
        CheckoutStage::Done => Some(Event::CheckedOut),
        CheckoutStage::Failed => Some(Event::CheckoutFailed),
        _ => None,
    }
}

impl Failure {
    /// The words that go with each reason for giving up.
    pub open spec fn message_of(self) -> Seq<char> {
        match self {
            Failure::CloneFailed => "failed to clone"@,
            Failure::CopyFailed => "Could not copy file content"@,
            Failure::CleanupFailed => "Could not remove the working tree"@,
        }
    }

    /// The diagnostic for this failure.
    pub fn message(&self) -> (text: &'static str)
        ensures
            text@ == self.message_of(),
    {
        match self {
            Failure::CloneFailed => "failed to clone",
            Failure::CopyFailed => "Could not copy file content",
            Failure::CleanupFailed => "Could not remove the working tree",
        }
    }
}

} // verus!

//! Checking out one branch: resolve its name, write its tree over the
//! working tree, then point the head at it. Any of the three may fail,
//! and then the branch is given up.
//!
//! Like the run as a whole, this is a state machine that names each
//! action and is told how it went.

use vstd::prelude::*;

verus! {

/// Where the checkout of a branch stands, named after the work due.
#[derive(Clone, Copy, Debug, PartialEq, Eq, Structural)]
pub enum CheckoutStage {
    /// The branch name is to be resolved to a tree.
    Resolving,
    /// The tree is to be written over the working tree.
    WritingTree,
    /// The head is to be pointed at what was resolved.
    SettingHead,
    /// The branch is checked out.
    Done,
    /// The branch could not be checked out.
    Failed,
}

/// What can happen to the action that is due.
pub enum CheckoutEventView {
    Resolved(Option<Seq<char>>),
    NotFound,
    TreeWritten,
    TreeFailed,
    HeadSet,
    HeadFailed,
}

/// An action, in terms of the text it carries.
pub enum CheckoutActionView {
    Resolve { name: Seq<char> },
    WriteTree,
    SetHead { reference: Seq<char> },
    DetachHead,
    Succeed,
    Fail,
    Refuse,
}

/// The checkout of a branch in mathematical terms.
pub struct CheckoutModel {
    /// The full name of the branch.
    pub branch: Seq<char>,
    /// The reference that the name resolved to, once it has, if it
    /// resolved to one.
    pub reference: Option<Seq<char>>,
    /// Where the checkout stands.
    pub stage: CheckoutStage,
}

impl CheckoutModel {
    /// The checkout of `branch` of which nothing has happened yet.
    pub open spec fn initial(branch: Seq<char>) -> CheckoutModel {
        CheckoutModel { branch, reference: None, stage: CheckoutStage::Resolving }
    }

    /// Whether `event` answers the action that is due.
    pub open spec fn accepts(self, event: CheckoutEventView) -> bool {
        match self.stage {
            CheckoutStage::Resolving => event is Resolved || event is NotFound,
            CheckoutStage::WritingTree => event is TreeWritten || event is TreeFailed,
            CheckoutStage::SettingHead => event is HeadSet || event is HeadFailed,
            CheckoutStage::Done => false,
            CheckoutStage::Failed => false,
        }
    }

    /// The checkout after `event`. An event that does not answer the
    /// action that is due changes nothing.
    pub open spec fn step(self, event: CheckoutEventView) -> CheckoutModel {
        match (self.stage, event) {
            (CheckoutStage::Resolving, CheckoutEventView::Resolved(reference)) => CheckoutModel {
                reference,
                stage: CheckoutStage::WritingTree,
                ..self
            },
            (CheckoutStage::Resolving, CheckoutEventView::NotFound) => CheckoutModel {
                stage: CheckoutStage::Failed,
                ..self
            },
            (CheckoutStage::WritingTree, CheckoutEventView::TreeWritten) => CheckoutModel {
                stage: CheckoutStage::SettingHead,
                ..self
            },
            (CheckoutStage::WritingTree, CheckoutEventView::TreeFailed) => CheckoutModel {
                stage: CheckoutStage::Failed,
                ..self
            },
            (CheckoutStage::SettingHead, CheckoutEventView::HeadSet) => CheckoutModel {
                stage: CheckoutStage::Done,
                ..self
            },
            (CheckoutStage::SettingHead, CheckoutEventView::HeadFailed) => CheckoutModel {
                stage: CheckoutStage::Failed,
                ..self
            },
            _ => self,
        }
    }

    /// The action that is due. The head goes to the reference that the
    /// name resolved to; where it resolved to none, the head is detached.
    pub open spec fn pending(self) -> CheckoutActionView {
        match self.stage {
            CheckoutStage::Resolving => CheckoutActionView::Resolve { name: self.branch },
            CheckoutStage::WritingTree => CheckoutActionView::WriteTree,
            CheckoutStage::SettingHead => match self.reference {
                Some(reference) => CheckoutActionView::SetHead { reference },
                None => CheckoutActionView::DetachHead,
            },
            CheckoutStage::Done => CheckoutActionView::Succeed,
            CheckoutStage::Failed => CheckoutActionView::Fail,
        }
    }

    /// What `step` answers `event` with: the action that is then due, or
    /// a refusal where the event does not answer the action that was.
    pub open spec fn reply(self, event: CheckoutEventView) -> CheckoutActionView {
        if self.accepts(event) {
            self.step(event).pending()
        } else {
            CheckoutActionView::Refuse
        }
    }
}

/// The text of an optional string.
pub open spec fn optional_text(text: Option<String>) -> Option<Seq<char>> {
    match text {
        Some(t) => Some(t@),
        None => None,
    }
}

/// What happened to the action that was due.
#[derive(Clone, Debug, PartialEq, Eq)]
pub enum CheckoutEvent {
    /// The name resolved to a tree, and to the reference of this name
    /// where it stands for one.
    Resolved(Option<String>),
    /// The name resolved to nothing.
    NotFound,
    /// The tree was written over the working tree.
    TreeWritten,
    /// The tree could not be written.
    TreeFailed,
    /// The head points at what was resolved.
    HeadSet,
    /// The head could not be set.
    HeadFailed,
}

impl View for CheckoutEvent {
    type V = CheckoutEventView;

    open spec fn view(&self) -> CheckoutEventView {
        match self {
            CheckoutEvent::Resolved(reference) => CheckoutEventView::Resolved(
                optional_text(*reference),
            ),
            CheckoutEvent::NotFound => CheckoutEventView::NotFound,
            CheckoutEvent::TreeWritten => CheckoutEventView::TreeWritten,
            CheckoutEvent::TreeFailed => CheckoutEventView::TreeFailed,
            CheckoutEvent::HeadSet => CheckoutEventView::HeadSet,
            CheckoutEvent::HeadFailed => CheckoutEventView::HeadFailed,
        }
    }
}

/// What is to be done next.
#[derive(Clone, Debug, PartialEq, Eq)]
pub enum CheckoutAction {
    /// Resolve this name to a tree and, where there is one, a reference.
    Resolve { name: String },
    /// Write the resolved tree over the working tree.
    WriteTree,
    /// Point the head at the reference of this name.
    SetHead { reference: String },
    /// Point the head at the resolved object itself.
    DetachHead,
    /// The branch is checked out; nothing is left to do.
    Succeed,
    /// The branch is given up.
    Fail,
    /// The event did not answer the action that was due; nothing changed.
    Refuse,
}

impl View for CheckoutAction {
    type V = CheckoutActionView;

    open spec fn view(&self) -> CheckoutActionView {
        match self {
            CheckoutAction::Resolve { name } => CheckoutActionView::Resolve { name: name@ },
            CheckoutAction::WriteTree => CheckoutActionView::WriteTree,
            CheckoutAction::SetHead { reference } => CheckoutActionView::SetHead {
                reference: reference@,
            },
            CheckoutAction::DetachHead => CheckoutActionView::DetachHead,
            CheckoutAction::Succeed => CheckoutActionView::Succeed,
            CheckoutAction::Fail => CheckoutActionView::Fail,
            CheckoutAction::Refuse => CheckoutActionView::Refuse,
        }
    }
}

/// The checkout of one branch.
#[derive(Clone, Debug, PartialEq, Eq)]
pub struct Checkout {
    /// The full name of the branch.
    pub branch: String,
    /// The reference that the name resolved to, if any.
    pub reference: Option<String>,
    /// Where the checkout stands.
    pub stage: CheckoutStage,
}

impl View for Checkout {
    type V = CheckoutModel;

    open spec fn view(&self) -> CheckoutModel {
        CheckoutModel {
            branch: self.branch@,
            reference: optional_text(self.reference),
            stage: self.stage,
        }
    }
}

impl Checkout {
    /// The checkout of the branch with the given full name, of which
    /// nothing has happened yet.
    pub fn new(branch: &str) -> (checkout: Checkout)
        ensures
            checkout@ == CheckoutModel::initial(branch@),
    {
        Checkout { branch: branch.to_owned(), reference: None, stage: CheckoutStage::Resolving }
    }

    /// The action that is due.
    pub fn pending(&self) -> (action: CheckoutAction)
        ensures
            action@ == self@.pending(),
    {
        match self.stage {
            CheckoutStage::Resolving => CheckoutAction::Resolve { name: self.branch.clone() },
            CheckoutStage::WritingTree => CheckoutAction::WriteTree,
            CheckoutStage::SettingHead => match &self.reference {
                Some(reference) => CheckoutAction::SetHead { reference: reference.clone() },
                None => CheckoutAction::DetachHead,
            },
            CheckoutStage::Done => CheckoutAction::Succeed,
            CheckoutStage::Failed => CheckoutAction::Fail,
        }
    }

    /// Takes in what happened to the action that was due and answers with
    /// the action that is due next. An event that does not answer the
    /// action that was due changes nothing and is refused.
    pub fn step(&mut self, event: CheckoutEvent) -> (action: CheckoutAction)
        ensures
            final(self)@ == old(self)@.step(event@),
            action@ == old(self)@.reply(event@),
    {
        let mut accepted = true;
        match self.stage {
            CheckoutStage::Resolving => match event {
                CheckoutEvent::Resolved(reference) => {
                    self.reference = reference;
                    self.stage = CheckoutStage::WritingTree;
                },
                CheckoutEvent::NotFound => {
                    self.stage = CheckoutStage::Failed;
                },
                _ => {
                    accepted = false;
                },
            },
            CheckoutStage::WritingTree => match event {
                CheckoutEvent::TreeWritten => {
                    self.stage = CheckoutStage::SettingHead;
                },
                CheckoutEvent::TreeFailed => {
                    self.stage = CheckoutStage::Failed;
                },
                _ => {
                    accepted = false;
                },
            },
            CheckoutStage::SettingHead => match event {
                CheckoutEvent::HeadSet => {
                    self.stage = CheckoutStage::Done;
                },
                CheckoutEvent::HeadFailed => {
                    self.stage = CheckoutStage::Failed;
                },
                _ => {
                    accepted = false;
                },
            },
            CheckoutStage::Done => {
                accepted = false;
            },
            CheckoutStage::Failed => {
                accepted = false;
            },
        }
        if accepted {
            self.pending()
        } else {
            CheckoutAction::Refuse
        }
    }
}

/// A checkout succeeds exactly when name, tree and head all do, in that
/// order; the head then goes to the reference the name resolved to, or is
/// detached where it resolved to none.
pub proof fn law_checkout_succeeds(branch: Seq<char>, reference: Option<Seq<char>>)
    ensures
        ({
            let start = CheckoutModel::initial(branch);
            let resolved = start.step(CheckoutEventView::Resolved(reference));
            let written = resolved.step(CheckoutEventView::TreeWritten);
            let done = written.step(CheckoutEventView::HeadSet);
            &&& start.pending() == (CheckoutActionView::Resolve { name: branch })
            &&& resolved.pending() is WriteTree
            &&& reference is Some ==> written.pending() == (CheckoutActionView::SetHead {
                reference: reference.unwrap(),
            })
            &&& reference is None ==> written.pending() is DetachHead
            &&& done.stage is Done
        }),
{
}

/// A checkout is done only by way of all three steps, and a failure of
/// any step gives the branch up for good.
pub proof fn law_checkout_steps(m: CheckoutModel, event: CheckoutEventView)
    ensures
        m.step(event).branch == m.branch,
        m.step(event).stage is Done && !(m.stage is Done) ==> m.stage is SettingHead && event
            is HeadSet,
        m.step(event).stage is SettingHead && !(m.stage is SettingHead) ==> m.stage
            is WritingTree && event is TreeWritten,
        m.step(event).stage is WritingTree && !(m.stage is WritingTree) ==> m.stage
            is Resolving && event is Resolved,
        m.accepts(event) && (event is NotFound || event is TreeFailed || event is HeadFailed)
            ==> m.step(event).stage is Failed,
        m.stage is Done || m.stage is Failed ==> m.step(event) == m && m.reply(event)
            is Refuse,
{
}

} // verus!

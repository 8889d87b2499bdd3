//! Turns the remote branches of a repository into side-by-side directory
//! trees: the rules for naming the outputs, reporting progress and
//! sequencing the clone, checkout, copy and cleanup steps.
//!
//! Nothing here touches the network or the disk. The run is a state
//! machine that names each action and is told how it went.

pub mod branches;
pub mod checkout;
pub mod names;
pub mod pipeline;
pub mod progress;
pub mod target;
pub mod text;
pub mod trace;

pub use branches::RemoteBranchRef;
pub use checkout::{Checkout, CheckoutAction, CheckoutEvent, CheckoutStage};
pub use names::extra_repo_name;
pub use pipeline::{Action, Event, Failure, Pipeline, Stage, Step};
pub use progress::{State, TransferProgress};
pub use target::{CloneConfig, CloneTarget, CopyPolicy};

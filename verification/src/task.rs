//! What the home screen asks of its caller.

use crate::action::{Action, HomeActions};
use std::path::PathBuf;
use vstd::prelude::*;

verus! {

/// Seconds between the starts of two nodes.
pub const NODE_START_INTERVAL: usize = 10;

/// Why the component could not react.
#[derive(Clone, Copy, Debug, PartialEq, Eq, Structural)]
pub enum HomeError {
    /// There is work to start, and nowhere to report its end.
    ActionSenderNotRegistered,
}

impl HomeError {
    /// The error in words.
    pub open spec fn text(self) -> Seq<char> {
        "Action sender not registered"@
    }

    /// The error in words.
    pub fn message(self) -> (res: String)
        ensures
            res@ == self.text(),
    {
        "Action sender not registered".to_string()
    }
}

/// Work on the node services, for the caller to carry out in the background.
pub enum Task<P> {
    /// Add, start or stop nodes until `count` of them run.
    MaintainRunningNodes {
        count: u16,
        owner: String,
        peers_args: P,
        safenode_path: Option<PathBuf>,
        /// Seconds to wait between the starts of two nodes.
        start_interval: u64,
    },
    /// Stop the services of these names.
    StopNodes { services: Vec<String> },
    /// Remove all the nodes and what they hold.
    ResetNodes,
}

impl<P> Task<P> {
    /// The action that reports the end of the task.
    pub open spec fn report(self) -> Action {
        match self {
            Task::MaintainRunningNodes { .. } => Action::HomeActions(
                HomeActions::StartNodesCompleted,
            ),
            Task::StopNodes { .. } => Action::HomeActions(HomeActions::StopNodesCompleted),
            Task::ResetNodes => Action::HomeActions(HomeActions::ResetNodesCompleted),
        }
    }

    /// The action to send when the task has ended, whether it succeeded or failed.
    pub fn completion(&self) -> (res: Action)
        ensures
            res == self.report(),
    {
        match self {
            Task::MaintainRunningNodes { .. } => Action::HomeActions(
                HomeActions::StartNodesCompleted,
            ),
            Task::StopNodes { .. } => Action::HomeActions(HomeActions::StopNodesCompleted),
            Task::ResetNodes => Action::HomeActions(HomeActions::ResetNodesCompleted),
        }
    }
}

/// What the caller has to do after an action.
pub enum Outcome<P> {
    /// Send this action on, if there is one.
    Reply(Option<Action>),
    /// Carry out the task in the background, then send its completion.
    Run(Task<P>),
    /// Read the node registry and hand it to `reload`, together with this action.
    Reload(Option<Action>),
}

} // verus!

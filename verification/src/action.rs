//! The messages that the components of the launchpad exchange.

use crate::mode::{InputMode, Scene};
use vstd::prelude::*;

verus! {

/// A message to the components.
#[derive(Clone, Debug, PartialEq, Eq)]
pub enum Action {
    /// Make the scene the current one.
    SwitchScene(Scene),
    /// Read the keyboard in another way.
    SwitchInputMode(InputMode),
    /// The user chose how many GB the nodes may take.
    StoreAllocatedDiskSpace(usize),
    /// The user chose the Discord username that owns the nodes.
    StoreDiscordUserName(String),
    /// A message for the home screen.
    HomeActions(HomeActions),
    /// Any message that the home screen does not act on.
    Other,
}

/// A message for the home screen.
#[derive(Clone, Copy, Debug, PartialEq, Eq, Structural)]
pub enum HomeActions {
    /// Bring the number of running nodes to what the disk space allows.
    StartNodes,
    /// Stop the running nodes.
    StopNodes,
    /// The work begun by `StartNodes` has ended.
    StartNodesCompleted,
    /// The work begun by `StopNodes` has ended.
    StopNodesCompleted,
    /// The nodes were reset after a change of the Discord username.
    ResetNodesCompleted,
    /// Open the box that asks for the Discord username.
    TriggerDiscordUsernameInputBox,
    /// Open the box that asks for the disk space.
    TriggerResourceAllocationInputBox,
    /// Move the selection of the node table up.
    PreviousTableItem,
    /// Move the selection of the node table down.
    NextTableItem,
    /// Collect the statistics of the nodes.
    UpdateStats,
}

} // verus!

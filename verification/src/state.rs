//! The state of the home screen, and what each action does to it.

use crate::action::{Action, HomeActions};
use crate::mode::{shows_home, InputMode, Scene};
use crate::node::{none_removed, present, running_names, texts, NodeServiceData};
use crate::resource_allocation::{nodes_fitting, NODE_COUNT_MODULUS};
use crate::stats::NodeStats;
use crate::table::TableSelection;
use crate::task::{HomeError, Outcome, Task, NODE_START_INTERVAL};
use std::path::PathBuf;
use tokio::sync::mpsc::UnboundedSender;
use vstd::prelude::*;

verus! {

/// What an outcome amounts to.
pub enum Reaction {
    /// Send this action on, if there is one.
    Reply(Option<Action>),
    /// Read the node registry, then send this action on, if there is one.
    Reload(Option<Action>),
    /// Bring the number of running nodes to `count`, on behalf of `owner`.
    Maintain { count: nat, owner: Seq<char> },
    /// Stop the services of these names.
    Stop { services: Seq<Seq<char>> },
    /// Reset all the nodes.
    Reset,
    /// Nothing can be started: nowhere to report to.
    Refuse,
}

/// The state of the home screen.
#[verifier::ext_equal]
pub struct HomeView<P, C> {
    pub active: bool,
    pub action_sender: Option<UnboundedSender<Action>>,
    pub config: C,
    pub node_services: Seq<NodeServiceData>,
    pub node_stats: NodeStats,
    pub node_table_state: TableSelection,
    pub allocated_disk_space: usize,
    pub discord_username: Seq<char>,
    pub lock_registry: bool,
    pub peers_args: P,
    pub safenode_path: Option<PathBuf>,
}

impl<P, C> HomeView<P, C> {
    /// Only nodes that were not removed are kept.
    pub open spec fn wf(self) -> bool {
        none_removed(self.node_services)
    }

    /// Every row of the table has an index. Each `Home` has such a state: see
    /// `Home::lemma_rows_fit`.
    pub open spec fn rows_fit(self) -> bool {
        self.node_services.len() <= usize::MAX
    }

    /// The selected row.
    pub open spec fn selected(self) -> Option<usize> {
        self.node_table_state.selected
    }

    /// A row of the table is selected, and there is a node in it.
    pub open spec fn selection_in_table(self) -> bool {
        self.selected() is Some && self.selected()->0 < self.node_services.len()
    }

    /// This state with the row `index` selected.
    pub open spec fn selecting(self, index: Option<usize>) -> Self {
        HomeView { node_table_state: self.node_table_state.selecting(index), ..self }
    }

    /// There is a row to move down to: with a row selected, the table is not empty.
    pub open spec fn can_select_next(self) -> bool {
        self.selected() is Some ==> self.node_services.len() > 0
    }

    /// There is a row to move up to: with the top row selected, the table is not empty.
    pub open spec fn can_select_previous(self) -> bool {
        self.selected() == Some(0usize) ==> self.node_services.len() > 0
    }

    /// The row below the selected one; the top row below the last, and where none is selected.
    pub open spec fn next_row(self) -> usize {
        match self.selected() {
            Some(i) if i + 1 < self.node_services.len() => (i + 1) as usize,
            _ => 0,
        }
    }

    /// The row above the selected one; the last row above the top; the top row where none
    /// is selected.
    pub open spec fn previous_row(self) -> usize {
        match self.selected() {
            Some(0) => (self.node_services.len() - 1) as usize,
            Some(i) => (i - 1) as usize,
            None => 0,
        }
    }

    /// The state once the registry was read and holds `nodes`. The first row gets
    /// selected where none was and there is one.
    pub open spec fn loaded(self, nodes: Seq<NodeServiceData>) -> Self {
        let kept = HomeView { node_services: present(nodes), ..self };
        if present(nodes).len() > 0 && self.selected() is None {
            kept.selecting(Some(0))
        } else {
            kept
        }
    }

    /// Whether taking `username` for the owner resets the nodes: it does where there are
    /// nodes, and another owner was known.
    pub open spec fn renaming_resets(self, username: Seq<char>) -> bool {
        &&& self.discord_username != username
        &&& self.discord_username.len() > 0
        &&& self.node_services.len() > 0
    }

    /// Whether a start leads to work on the nodes.
    pub open spec fn can_start(self) -> bool {
        &&& !self.lock_registry
        &&& self.allocated_disk_space != 0
        &&& self.discord_username.len() > 0
    }

    /// Whether the component can act on `action`: a selection that has no table left
    /// cannot be moved around its end.
    pub open spec fn accepts(self, action: Action) -> bool {
        match action {
            Action::HomeActions(HomeActions::NextTableItem) => self.can_select_next(),
            Action::HomeActions(HomeActions::PreviousTableItem) => self.can_select_previous(),
            _ => true,
        }
    }

    /// The state after `action`.
    pub open spec fn after(self, action: Action) -> Self {
        match action {
            Action::SwitchScene(scene) => HomeView { active: shows_home(scene), ..self },
            Action::StoreAllocatedDiskSpace(space) => HomeView {
                allocated_disk_space: space,
                ..self
            },
            Action::StoreDiscordUserName(username) => HomeView {
                discord_username: username@,
                lock_registry: self.lock_registry || self.renaming_resets(username@),
                ..self
            },
            Action::HomeActions(home_action) => match home_action {
                HomeActions::StartNodes => HomeView {
                    lock_registry: self.lock_registry || self.can_start(),
                    ..self
                },
                HomeActions::StopNodes => HomeView { lock_registry: true, ..self },
                HomeActions::StartNodesCompleted
                | HomeActions::StopNodesCompleted
                | HomeActions::ResetNodesCompleted => HomeView { lock_registry: false, ..self },
                HomeActions::PreviousTableItem => self.selecting(Some(self.previous_row())),
                HomeActions::NextTableItem => self.selecting(Some(self.next_row())),
                _ => self,
            },
            _ => self,
        }
    }

    /// What the component asks of its caller on `action`.
    pub open spec fn reaction(self, action: Action) -> Reaction {
        match action {
            Action::SwitchScene(Scene::Home) => Reaction::Reply(
                Some(Action::SwitchInputMode(InputMode::Navigation)),
            ),
            Action::StoreDiscordUserName(username) => {
                if self.renaming_resets(username@) {
                    self.if_reporting(Reaction::Reset)
                } else {
                    Reaction::Reply(None)
                }
            },
            Action::HomeActions(home_action) => match home_action {
                HomeActions::StartNodes => {
                    if self.lock_registry {
                        Reaction::Reply(None)
                    } else if self.allocated_disk_space == 0 {
                        Reaction::Reply(
                            Some(
                                Action::HomeActions(HomeActions::TriggerResourceAllocationInputBox),
                            ),
                        )
                    } else if self.discord_username.len() == 0 {
                        Reaction::Reply(
                            Some(Action::HomeActions(HomeActions::TriggerDiscordUsernameInputBox)),
                        )
                    } else {
                        self.if_reporting(
                            Reaction::Maintain {
                                count: nodes_fitting(self.allocated_disk_space as nat) % (
                                NODE_COUNT_MODULUS as nat),
                                owner: self.discord_username,
                            },
                        )
                    }
                },
                HomeActions::StopNodes => {
                    if self.lock_registry {
                        Reaction::Reply(None)
                    } else {
                        self.if_reporting(
                            Reaction::Stop { services: running_names(self.node_services) },
                        )
                    }
                },
                HomeActions::StartNodesCompleted | HomeActions::StopNodesCompleted =>
                    Reaction::Reload(None),
                HomeActions::ResetNodesCompleted => Reaction::Reload(
                    Some(Action::HomeActions(HomeActions::StartNodes)),
                ),
                HomeActions::TriggerDiscordUsernameInputBox => Reaction::Reply(
                    Some(Action::SwitchScene(Scene::DiscordUsernameInputBox)),
                ),
                HomeActions::TriggerResourceAllocationInputBox => Reaction::Reply(
                    Some(Action::SwitchScene(Scene::ResourceAllocationInputBox)),
                ),
                _ => Reaction::Reply(None),
            },
            _ => Reaction::Reply(None),
        }
    }

    /// `reaction`, if there is somewhere to report its end.
    pub open spec fn if_reporting(self, reaction: Reaction) -> Reaction {
        if self.action_sender is Some {
            reaction
        } else {
            Reaction::Refuse
        }
    }
}

impl<P: Clone, C> HomeView<P, C> {
    /// `res` is what asks for `reaction` in this state.
    pub open spec fn answers(
        self,
        res: Result<Outcome<P>, HomeError>,
        reaction: Reaction,
    ) -> bool {
        match reaction {
            Reaction::Reply(next) => res == Ok::<Outcome<P>, HomeError>(Outcome::Reply(next)),
            Reaction::Reload(next) => res == Ok::<Outcome<P>, HomeError>(Outcome::Reload(next)),
            Reaction::Maintain { count, owner } => {
                &&& res matches Ok(
                    Outcome::Run(
                        Task::MaintainRunningNodes {
                            count: run_count,
                            owner: run_owner,
                            peers_args,
                            safenode_path,
                            start_interval,
                        },
                    ),
                )
                &&& run_count == count
                &&& run_owner@ == owner
                &&& cloned(self.peers_args, peers_args)
                &&& safenode_path == self.safenode_path
                &&& start_interval == NODE_START_INTERVAL
            },
            Reaction::Stop { services } => {
                &&& res matches Ok(Outcome::Run(Task::StopNodes { services: stopped }))
                &&& texts(stopped@) == services
            },
            Reaction::Reset => res == Ok::<Outcome<P>, HomeError>(Outcome::Run(Task::ResetNodes)),
            Reaction::Refuse => res == Err::<Outcome<P>, HomeError>(
                HomeError::ActionSenderNotRegistered,
            ),
        }
    }
}

} // verus!

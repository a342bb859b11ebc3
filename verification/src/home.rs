//! The home screen component.

use crate::action::{Action, HomeActions};
use crate::layout::{centered_rect_fixed, split, Area, Constraint, Direction};
use crate::mode::{InputMode, Scene};
use crate::node::{keep_present, names_of_running, running_names, texts, NodeServiceData};
use crate::resource_allocation::node_count;
use crate::screen::{
    device_status_block, drawing_views, header_constraints, layer_constraints, node_table,
    paragraph, wait_note, Alignment, Drawing, Widget,
};
use crate::state::HomeView;
use crate::stats::NodeStats;
use crate::table::TableSelection;
use crate::task::{HomeError, Outcome, Task, NODE_START_INTERVAL};
use std::path::PathBuf;
use tokio::sync::mpsc::UnboundedSender;
use vstd::prelude::*;

verus! {

/// The home screen. `P` is what nodes are told of their peers, and `C` the configuration
/// of the launchpad: the component carries both and looks into neither.
pub struct Home<P, C> {
    /// Whether the component is on the screen.
    active: bool,
    action_sender: Option<UnboundedSender<Action>>,
    config: C,
    node_services: Vec<NodeServiceData>,
    node_stats: NodeStats,
    node_table_state: TableSelection,
    allocated_disk_space: usize,
    discord_username: String,
    /// The registry file does not take concurrent changes: set while a task is at work on it.
    lock_registry: bool,
    /// Peers to pass to the nodes that are started.
    peers_args: P,
    /// The binary to run; without one it is fetched from the network.
    safenode_path: Option<PathBuf>,
}

impl<P, C> View for Home<P, C> {
    type V = HomeView<P, C>;

    closed spec fn view(&self) -> HomeView<P, C> {
        HomeView {
            active: self.active,
            action_sender: self.action_sender,
            config: self.config,
            node_services: self.node_services@,
            node_stats: self.node_stats,
            node_table_state: self.node_table_state,
            allocated_disk_space: self.allocated_disk_space,
            discord_username: self.discord_username@,
            lock_registry: self.lock_registry,
            peers_args: self.peers_args,
            safenode_path: self.safenode_path,
        }
    }
}

impl<P, C: Default> Home<P, C> {
    /// The component at time `now`, with the nodes of `registry`. Fails as reading the
    /// registry failed.
    pub fn new<E>(
        allocated_disk_space: usize,
        discord_username: &str,
        peers_args: P,
        safenode_path: Option<PathBuf>,
        registry: Result<Vec<NodeServiceData>, E>,
        now: u128,
    ) -> (res: Result<Self, E>)
        ensures
            match registry {
                Ok(nodes) => {
                    &&& res is Ok
                    &&& res->Ok_0@.wf()
                    &&& res->Ok_0@.rows_fit()
                    &&& call_ensures(C::default, (), res->Ok_0@.config)
                    &&& res->Ok_0@ == (HomeView {
                        active: true,
                        action_sender: None,
                        config: res->Ok_0@.config,
                        node_services: Seq::empty(),
                        node_stats: NodeStats::none_yet(now),
                        node_table_state: TableSelection { offset: 0, selected: None },
                        allocated_disk_space,
                        discord_username: discord_username@,
                        lock_registry: false,
                        peers_args,
                        safenode_path,
                    }).loaded(nodes@)
                },
                Err(e) => res == Err::<Self, E>(e),
            },
    {
        let mut home = Home {
            active: true,
            action_sender: None,
            config: C::default(),
            node_services: Vec::new(),
            node_stats: NodeStats::new(now),
            node_table_state: TableSelection::new(),
            allocated_disk_space,
            discord_username: discord_username.to_string(),
            lock_registry: false,
            peers_args,
            safenode_path,
        };
        match home.load_node_registry_and_update_states(registry) {
            Ok(()) => Ok(home),
            Err(e) => Err(e),
        }
    }
}

impl<P, C> Home<P, C> {
    /// The nodes of a component are no more than a table can index.
    pub proof fn lemma_rows_fit(&self)
        ensures
            self@.rows_fit(),
    {
        assert(self.node_services@.len() == self.node_services.len());
    }

    /// Takes over what was read from the node registry, but for removed nodes, and
    /// selects the first row where none was selected. Where the registry could not be
    /// read, nothing changes, and the error comes back.
    pub fn load_node_registry_and_update_states<E>(
        &mut self,
        registry: Result<Vec<NodeServiceData>, E>,
    ) -> (res: Result<(), E>)
        ensures
            match registry {
                Ok(nodes) => {
                    &&& res == Ok::<(), E>(())
                    &&& final(self)@ == old(self)@.loaded(nodes@)
                    &&& final(self)@.wf()
                    &&& final(self)@.rows_fit()
                },
                Err(e) => {
                    &&& res == Err::<(), E>(e)
                    &&& final(self)@ == old(self)@
                },
            },
    {
        let nodes = match registry {
            Ok(nodes) => nodes,
            Err(e) => {
                return Err(e);
            },
        };
        self.node_services = keep_present(nodes);
        proof {
            self.lemma_rows_fit();
        }
        if self.node_services.len() != 0 && self.node_table_state.selected.is_none() {
            self.node_table_state.select(Some(0));
        }
        Ok(())
    }

    /// Ends what `Outcome::Reload` began: takes over the registry, and gives back the
    /// action to send on. Where the registry could not be read, there is only the error.
    pub fn reload<E>(
        &mut self,
        registry: Result<Vec<NodeServiceData>, E>,
        next: Option<Action>,
    ) -> (res: Result<Option<Action>, E>)
        ensures
            match registry {
                Ok(nodes) => {
                    &&& res == Ok::<Option<Action>, E>(next)
                    &&& final(self)@ == old(self)@.loaded(nodes@)
                    &&& final(self)@.wf()
                    &&& final(self)@.rows_fit()
                },
                Err(e) => {
                    &&& res == Err::<Option<Action>, E>(e)
                    &&& final(self)@ == old(self)@
                },
            },
    {
        match self.load_node_registry_and_update_states(registry) {
            Ok(()) => Ok(next),
            Err(e) => Err(e),
        }
    }

    /// Whether `update` takes `action` in this state.
    pub fn can_handle(&self, action: &Action) -> (res: bool)
        ensures
            res == self@.accepts(*action),
    {
        match action {
            Action::HomeActions(HomeActions::NextTableItem) => {
                self.node_table_state.selected.is_none() || self.node_services.len() > 0
            },
            Action::HomeActions(HomeActions::PreviousTableItem) => {
                match self.node_table_state.selected {
                    Some(i) => i != 0 || self.node_services.len() > 0,
                    None => true,
                }
            },
            _ => true,
        }
    }

    /// The table was drawn with the row `offset` on top.
    pub fn scroll_table_to(&mut self, offset: usize)
        ensures
            final(self)@ == (HomeView {
                node_table_state: TableSelection { offset, ..old(self)@.node_table_state },
                ..old(self)@
            }),
            old(self)@.wf() ==> final(self)@.wf(),
    {
        self.node_table_state.offset = offset;
    }

    /// Where the end of a task is reported.
    pub fn get_actions_sender(&self) -> (res: Result<&UnboundedSender<Action>, HomeError>)
        ensures
            match self@.action_sender {
                Some(sender) => res == Ok::<&UnboundedSender<Action>, HomeError>(&sender),
                None => res == Err::<&UnboundedSender<Action>, HomeError>(
                    HomeError::ActionSenderNotRegistered,
                ),
            },
    {
        match &self.action_sender {
            Some(sender) => Ok(sender),
            None => Err(HomeError::ActionSenderNotRegistered),
        }
    }

    /// At time `now`, gives the action that has the statistics collected, if that is due.
    /// The interval starts anew even where there is nowhere to send the action.
    pub fn try_update_stats(&mut self, now: u128) -> (res: Result<Option<Action>, HomeError>)
        ensures
            old(self)@.wf() ==> final(self)@.wf(),
            !old(self)@.node_stats.due(now) ==> {
                &&& final(self)@ == old(self)@
                &&& res == Ok::<Option<Action>, HomeError>(None)
            },
            old(self)@.node_stats.due(now) ==> {
                &&& final(self)@ == (HomeView {
                    node_stats: NodeStats { last_update: now, ..old(self)@.node_stats },
                    ..old(self)@
                })
                &&& res == (if old(self)@.action_sender is Some {
                    Ok::<Option<Action>, HomeError>(
                        Some(Action::HomeActions(HomeActions::UpdateStats)),
                    )
                } else {
                    Err(HomeError::ActionSenderNotRegistered)
                })
            },
    {
        if self.node_stats.is_due(now) {
            self.node_stats.last_update = now;
            match self.get_actions_sender() {
                Ok(_) => Ok(Some(Action::HomeActions(HomeActions::UpdateStats))),
                Err(e) => Err(e),
            }
        } else {
            Ok(None)
        }
    }

    /// The names of the running nodes, in the order of the table.
    pub fn get_running_nodes(&self) -> (res: Vec<String>)
        ensures
            texts(res@) == running_names(self@.node_services),
    {
        names_of_running(&self.node_services)
    }

    /// Moves the selection down by a row, and around the end of the table.
    pub fn select_next_table_item(&mut self)
        requires
            old(self)@.can_select_next(),
        ensures
            old(self)@.rows_fit(),
            final(self)@ == old(self)@.selecting(Some(old(self)@.next_row())),
            old(self)@.wf() ==> final(self)@.wf(),
    {
        proof {
            self.lemma_rows_fit();
        }
        let i: usize = match self.node_table_state.selected {
            Some(i) => {
                if i >= self.node_services.len() - 1 {
                    0
                } else {
                    i + 1
                }
            },
            None => 0,
        };
        self.node_table_state.select(Some(i));
    }

    /// Moves the selection up by a row, and around the top of the table.
    pub fn select_previous_table_item(&mut self)
        requires
            old(self)@.can_select_previous(),
        ensures
            old(self)@.rows_fit(),
            final(self)@ == old(self)@.selecting(Some(old(self)@.previous_row())),
            old(self)@.wf() ==> final(self)@.wf(),
    {
        proof {
            self.lemma_rows_fit();
        }
        let i: usize = match self.node_table_state.selected {
            Some(i) => {
                if i == 0 {
                    self.node_services.len() - 1
                } else {
                    i - 1
                }
            },
            None => 0,
        };
        self.node_table_state.select(Some(i));
    }

    /// Selects no row, and scrolls to the top.
    pub fn unselect_table_item(&mut self)
        ensures
            final(self)@ == old(self)@.selecting(None),
            old(self)@.wf() ==> final(self)@.wf(),
    {
        self.node_table_state.select(None);
    }

    /// The name of the service in the selected row, if there is one.
    pub fn get_service_name_of_selected_table_item(&self) -> (res: Option<String>)
        ensures
            res is Some <==> self@.selection_in_table(),
            res matches Some(name) ==> name@
                == self@.node_services[self@.selected()->0 as int].service_name@,
    {
        match self.node_table_state.selected {
            Some(i) => {
                if i < self.node_services.len() {
                    Some(self.node_services[i].service_name.clone())
                } else {
                    None
                }
            },
            None => None,
        }
    }

    /// From now on the ends of tasks are reported to `tx`.
    pub fn register_action_handler(&mut self, tx: UnboundedSender<Action>) -> (res: Result<
        (),
        HomeError,
    >)
        ensures
            res == Ok::<(), HomeError>(()),
            final(self)@ == (HomeView { action_sender: Some(tx), ..old(self)@ }),
            old(self)@.wf() ==> final(self)@.wf(),
    {
        self.action_sender = Some(tx);
        Ok(())
    }

    /// Takes over the configuration.
    pub fn register_config_handler(&mut self, config: C) -> (res: Result<(), HomeError>)
        ensures
            res == Ok::<(), HomeError>(()),
            final(self)@ == (HomeView { config, ..old(self)@ }),
            old(self)@.wf() ==> final(self)@.wf(),
    {
        self.config = config;
        Ok(())
    }
}

impl<P, C> Home<P, C> {
    /// What to draw on `area`, from the bottom to the top: nothing while the component is
    /// not active. The rows and columns into which the area is divided come from the
    /// layout solver.
    pub fn draw(&self, area: Area) -> (res: Vec<Drawing>)
        ensures
            self@.shown_by(drawing_views(res@), area),
    {
        if !self.active {
            return Vec::new();
        }
        let rows = [Constraint::Max(1), Constraint::Min(5), Constraint::Min(3), Constraint::Max(3)];
        let layers = split(Direction::Vertical, &rows, area);
        let popup = centered_rect_fixed(25, 3, area);
        let columns = [Constraint::Min(40), Constraint::Fill(20)];
        let header = split(Direction::Horizontal, &columns, layers[0]);
        assert(rows@ =~= layer_constraints());
        assert(columns@ =~= header_constraints());
        let drawings = self.compose(&layers, &header, popup);
        assert(self@.shown_in(drawing_views(drawings@), layers@, header@, area));
        drawings
    }

    /// What to draw on the given rows of the screen and columns of its first row, with
    /// the note that work is going on, if it is, in `popup`.
    pub fn compose(&self, layers: &Vec<Area>, header: &Vec<Area>, popup: Area) -> (res: Vec<Drawing>)
        requires
            layers@.len() >= 3,
            header@.len() >= 2,
        ensures
            drawing_views(res@) == self@.picture(layers@, header@, popup),
    {
        let owner_line = if self.discord_username.as_str().is_empty() {
            String::new()
        } else {
            "Discord Username: ".to_string().concat(self.discord_username.as_str())
        };
        let status_text = if self.node_services.len() == 0 {
            "No nodes detected.\nUse the Manage nodes command to begin.".to_string()
        } else {
            "todo: display a table".to_string()
        };
        let running = self.get_running_nodes();
        assert(texts(running@).len() == running@.len());

        let mut drawings: Vec<Drawing> = Vec::new();
        drawings.push(
            paragraph(header[0], "Autonomi Node Launchpad".to_string(), Alignment::Left, None),
        );
        drawings.push(paragraph(header[1], owner_line, Alignment::Right, None));
        drawings.push(
            paragraph(layers[1], status_text, Alignment::Left, Some(device_status_block())),
        );
        drawings.push(
            node_table(layers[2], &self.node_services, running.len() > 0, self.node_table_state),
        );
        if self.lock_registry {
            drawings.push(Drawing { area: popup, widget: Widget::Clear });
            drawings.push(wait_note(popup));
        }
        assert(drawing_views(drawings@) =~= self@.picture(layers@, header@, popup));
        drawings
    }
}

impl<P: Clone, C> Home<P, C> {
    /// Acts on `action`, and says what the caller has to do.
    ///
    /// While the registry is locked, nodes are neither started nor stopped. Work that
    /// is refused for want of an action sender has locked the registry all the same.
    pub fn update(&mut self, action: Action) -> (res: Result<Outcome<P>, HomeError>)
        requires
            old(self)@.accepts(action),
        ensures
            old(self)@.rows_fit(),
            final(self)@ == old(self)@.after(action),
            old(self)@.answers(res, old(self)@.reaction(action)),
            old(self)@.wf() ==> final(self)@.wf(),
    {
        proof {
            self.lemma_rows_fit();
        }
        match action {
            Action::SwitchScene(scene) => match scene {
                Scene::Home => {
                    self.active = true;
                    // commands are typed on the home screen, not text
                    return Ok(
                        Outcome::Reply(Some(Action::SwitchInputMode(InputMode::Navigation))),
                    );
                },
                Scene::DiscordUsernameInputBox | Scene::ResourceAllocationInputBox => {
                    self.active = true;
                },
                _ => {
                    self.active = false;
                },
            },
            Action::StoreAllocatedDiskSpace(space) => {
                self.allocated_disk_space = space;
            },
            Action::StoreDiscordUserName(username) => {
                let reset_safenode_services = !(self.discord_username == username)
                    && !self.discord_username.as_str().is_empty() && self.node_services.len() != 0;
                self.discord_username = username;
                if reset_safenode_services {
                    self.lock_registry = true;
                    return match self.get_actions_sender() {
                        Ok(_) => Ok(Outcome::Run(Task::ResetNodes)),
                        Err(e) => Err(e),
                    };
                }
            },
            Action::HomeActions(HomeActions::StartNodes) => {
                return self.start_nodes();
            },
            Action::HomeActions(HomeActions::StopNodes) => {
                return self.stop_nodes();
            },
            Action::HomeActions(HomeActions::StartNodesCompleted)
            | Action::HomeActions(HomeActions::StopNodesCompleted) => {
                self.lock_registry = false;
                return Ok(Outcome::Reload(None));
            },
            Action::HomeActions(HomeActions::ResetNodesCompleted) => {
                self.lock_registry = false;
                return Ok(Outcome::Reload(Some(Action::HomeActions(HomeActions::StartNodes))));
            },
            Action::HomeActions(HomeActions::TriggerDiscordUsernameInputBox) => {
                return Ok(
                    Outcome::Reply(Some(Action::SwitchScene(Scene::DiscordUsernameInputBox))),
                );
            },
            Action::HomeActions(HomeActions::TriggerResourceAllocationInputBox) => {
                return Ok(
                    Outcome::Reply(Some(Action::SwitchScene(Scene::ResourceAllocationInputBox))),
                );
            },
            Action::HomeActions(HomeActions::PreviousTableItem) => {
                self.select_previous_table_item();
            },
            Action::HomeActions(HomeActions::NextTableItem) => {
                self.select_next_table_item();
            },
            _ => {},
        }
        Ok(Outcome::Reply(None))
    }

    /// Asks for what is missing to start nodes, or for the nodes to be started.
    fn start_nodes(&mut self) -> (res: Result<Outcome<P>, HomeError>)
        ensures
            final(self)@ == old(self)@.after(Action::HomeActions(HomeActions::StartNodes)),
            old(self)@.answers(
                res,
                old(self)@.reaction(Action::HomeActions(HomeActions::StartNodes)),
            ),
    {
        if self.lock_registry {
            return Ok(Outcome::Reply(None));
        }
        if self.allocated_disk_space == 0 {
            return Ok(
                Outcome::Reply(
                    Some(Action::HomeActions(HomeActions::TriggerResourceAllocationInputBox)),
                ),
            );
        }
        if self.discord_username.as_str().is_empty() {
            return Ok(
                Outcome::Reply(
                    Some(Action::HomeActions(HomeActions::TriggerDiscordUsernameInputBox)),
                ),
            );
        }
        let count: u16 = node_count(self.allocated_disk_space);
        self.lock_registry = true;
        match self.get_actions_sender() {
            Ok(_) => Ok(
                Outcome::Run(
                    Task::MaintainRunningNodes {
                        count,
                        owner: self.discord_username.clone(),
                        peers_args: self.peers_args.clone(),
                        safenode_path: self.safenode_path.clone(),
                        start_interval: NODE_START_INTERVAL as u64,
                    },
                ),
            ),
            Err(e) => Err(e),
        }
    }

    /// Asks for the running nodes to be stopped.
    fn stop_nodes(&mut self) -> (res: Result<Outcome<P>, HomeError>)
        ensures
            final(self)@ == old(self)@.after(Action::HomeActions(HomeActions::StopNodes)),
            old(self)@.answers(
                res,
                old(self)@.reaction(Action::HomeActions(HomeActions::StopNodes)),
            ),
    {
        if self.lock_registry {
            return Ok(Outcome::Reply(None));
        }
        let services = self.get_running_nodes();
        self.lock_registry = true;
        match self.get_actions_sender() {
            Ok(_) => Ok(Outcome::Run(Task::StopNodes { services })),
            Err(e) => Err(e),
        }
    }
}

} // verus!

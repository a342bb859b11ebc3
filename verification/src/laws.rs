//! What holds of the home screen over several actions.

use crate::action::{Action, HomeActions};
use crate::layout::Area;
use crate::mode::{shows_home, InputMode, Scene};
use crate::node::{
    none_removed, present, running, running_names, NodeServiceData, ServiceStatus,
};
use crate::node_laws::{
    law_names_of_running, law_none_removed, law_present_nodes, law_texts_of_strings,
};
use crate::resource_allocation::{nodes_fitting, NODE_COUNT_MODULUS};
use crate::screen::{green, node_row, node_rows, WidgetView};
use crate::state::{HomeView, Reaction};
use crate::stats::NodeStats;
use crate::table::TableSelection;
use crate::task::{HomeError, Outcome, Task};
use vstd::prelude::*;

verus! {

/// The action that carries `home_action`.
pub open spec fn to_home(home_action: HomeActions) -> Action {
    Action::HomeActions(home_action)
}

/// Whether `action` reports the end of work on the nodes.
pub open spec fn reports_end(action: Action) -> bool {
    ||| action == to_home(HomeActions::StartNodesCompleted)
    ||| action == to_home(HomeActions::StopNodesCompleted)
    ||| action == to_home(HomeActions::ResetNodesCompleted)
}

/// While the registry is locked, a start or a stop changes nothing and asks for nothing.
pub proof fn law_locked_registry_refuses_start_and_stop<P, C>(s: HomeView<P, C>)
    requires
        s.lock_registry,
    ensures
        s.after(to_home(HomeActions::StartNodes)) == s,
        s.reaction(to_home(HomeActions::StartNodes)) == Reaction::Reply(None),
        s.after(to_home(HomeActions::StopNodes)) == s,
        s.reaction(to_home(HomeActions::StopNodes)) == Reaction::Reply(None),
{
}

/// Nodes are started or stopped only from an unlocked registry.
pub proof fn law_start_and_stop_need_unlocked_registry<P, C>(s: HomeView<P, C>, action: Action)
    ensures
        s.reaction(action) is Maintain || s.reaction(action) is Stop ==> !s.lock_registry,
{
}

/// Whatever asks for work on the nodes leaves the registry locked, even where the work is
/// refused.
pub proof fn law_work_locks_registry<P, C>(s: HomeView<P, C>, action: Action)
    ensures
        s.reaction(action) !is Reply && s.reaction(action) !is Reload ==> s.after(
            action,
        ).lock_registry,
{
}

/// A locked registry stays locked until the end of work is reported.
pub proof fn law_only_end_of_work_unlocks<P, C>(s: HomeView<P, C>, action: Action)
    requires
        s.lock_registry,
        !reports_end(action),
    ensures
        s.after(action).lock_registry,
{
}

/// The report that ends a task, whichever task it is, unlocks the registry and has it read;
/// what is read then does not lock it again.
pub proof fn law_end_of_task_unlocks<P, C>(
    s: HomeView<P, C>,
    task: Task<P>,
    nodes: Seq<NodeServiceData>,
)
    ensures
        reports_end(task.report()),
        s.accepts(task.report()),
        !s.after(task.report()).lock_registry,
        s.reaction(task.report()) is Reload,
        !s.after(task.report()).loaded(nodes).lock_registry,
{
}

/// No action changes which nodes are known or what the component was given to carry; the
/// table moves only on the two actions that move its selection.
pub proof fn law_actions_keep_the_rest<P, C>(s: HomeView<P, C>, action: Action)
    ensures
        s.after(action).node_services == s.node_services,
        s.after(action).node_stats == s.node_stats,
        s.after(action).action_sender == s.action_sender,
        s.after(action).config == s.config,
        s.after(action).peers_args == s.peers_args,
        s.after(action).safenode_path == s.safenode_path,
        s.after(action).node_table_state != s.node_table_state ==> action == to_home(
            HomeActions::NextTableItem,
        ) || action == to_home(HomeActions::PreviousTableItem),
{
}

/// The states that the component keeps to are those in which no known node has the status
/// Removed.
pub proof fn law_known_nodes_are_not_removed<P, C>(s: HomeView<P, C>)
    ensures
        s.wf() <==> forall|i: int|
            0 <= i < s.node_services.len() ==> (#[trigger] s.node_services[i]).status
                != ServiceStatus::Removed,
{
    law_none_removed(s.node_services);
}

/// Neither an action nor reading the registry brings in a removed node.
pub proof fn law_no_removed_node<P, C>(
    s: HomeView<P, C>,
    action: Action,
    nodes: Seq<NodeServiceData>,
)
    requires
        s.wf(),
    ensures
        s.after(action).wf(),
        s.loaded(nodes).wf(),
{
    lemma_present(nodes);
}

/// After the registry was read, a row is selected wherever there is one; a selection that
/// was there stays, whatever was read.
pub proof fn law_reading_selects<P, C>(s: HomeView<P, C>, nodes: Seq<NodeServiceData>)
    ensures
        s.loaded(nodes).node_services.len() > 0 ==> s.loaded(nodes).selected() is Some,
        s.selected() is Some ==> s.loaded(nodes).node_table_state == s.node_table_state,
{
}

/// Reading a registry that has not changed changes nothing.
pub proof fn law_reading_again<P, C>(s: HomeView<P, C>, nodes: Seq<NodeServiceData>)
    ensures
        s.loaded(nodes).loaded(nodes) == s.loaded(nodes),
{
}

/// From a row of the table, moving down and then up, or up and then down, leads back; and
/// a move from a row of the table leads to a row of the table.
pub proof fn law_next_and_previous_cancel<P, C>(s: HomeView<P, C>)
    requires
        s.selection_in_table(),
        s.rows_fit(),
    ensures
        s.after(to_home(HomeActions::NextTableItem)).selection_in_table(),
        s.after(to_home(HomeActions::PreviousTableItem)).selection_in_table(),
        s.after(to_home(HomeActions::NextTableItem)).after(to_home(HomeActions::PreviousTableItem)) == s,
        s.after(to_home(HomeActions::PreviousTableItem)).after(to_home(HomeActions::NextTableItem)) == s,
{
}

/// Wherever the selection was, moving down leads to a row of the table.
pub proof fn law_next_leads_into_table<P, C>(s: HomeView<P, C>)
    requires
        s.node_services.len() > 0,
    ensures
        s.after(to_home(HomeActions::NextTableItem)).selection_in_table(),
{
}

/// The state after moving the selection down `times` times.
pub open spec fn moved_down<P, C>(s: HomeView<P, C>, times: nat) -> HomeView<P, C>
    decreases times,
{
    if times == 0 {
        s
    } else {
        moved_down(s, (times - 1) as nat).after(to_home(HomeActions::NextTableItem))
    }
}

/// Moving down walks around the table: from row `i` of `n`, `times` moves lead to row
/// `(i + times) % n`. After `n` moves the selection is back.
pub proof fn law_moving_down_walks_around<P, C>(s: HomeView<P, C>, times: nat)
    requires
        s.selection_in_table(),
        s.rows_fit(),
    ensures
        moved_down(s, times).selected() == Some(
            ((s.selected()->0 + times) % (s.node_services.len() as int)) as usize,
        ),
        moved_down(s, times).node_services == s.node_services,
        times == s.node_services.len() ==> moved_down(s, times).selected() == s.selected(),
    decreases times,
{
    let n = s.node_services.len() as int;
    let i = s.selected()->0 as int;
    if times == 0 {
        vstd::arithmetic::div_mod::lemma_small_mod(i as nat, n as nat);
    } else {
        law_moving_down_walks_around(s, (times - 1) as nat);
        let before = (i + times - 1) % n;
        let now = (i + times) % n;
        vstd::arithmetic::div_mod::lemma_mod_bound(i + times - 1, n);
        vstd::arithmetic::div_mod::lemma_fundamental_div_mod(i + times - 1, n);
        let q = (i + times - 1) / n;
        if before + 1 < n {
            vstd::arithmetic::div_mod::lemma_fundamental_div_mod_converse(
                i + times,
                n,
                q,
                before + 1,
            );
        } else {
            assert(n * (q + 1) == n * q + n) by (nonlinear_arith);
            assert((q + 1) * n == n * (q + 1)) by (nonlinear_arith);
            vstd::arithmetic::div_mod::lemma_fundamental_div_mod_converse(i + times, n, q + 1, 0);
        }
    }
    if times == n {
        vstd::arithmetic::div_mod::lemma_mod_add_multiples_vanish(i, n);
        vstd::arithmetic::div_mod::lemma_small_mod(i as nat, n as nat);
    }
}

/// A start that lacks disk space opens the box that asks for it, on a visible home screen;
/// once space is given, a start no longer asks for it.
pub proof fn law_start_asks_for_disk_space<P, C>(s: HomeView<P, C>, space: usize)
    requires
        !s.lock_registry,
        s.allocated_disk_space == 0,
        space != 0,
    ensures
        ({
            let ask = to_home(HomeActions::TriggerResourceAllocationInputBox);
            let open = Action::SwitchScene(Scene::ResourceAllocationInputBox);
            let asked = s.after(to_home(HomeActions::StartNodes)).after(ask).after(open);
            let answered = asked.after(Action::StoreAllocatedDiskSpace(space));
            &&& s.reaction(to_home(HomeActions::StartNodes)) == Reaction::Reply(Some(ask))
            &&& s.after(to_home(HomeActions::StartNodes)).reaction(ask) == Reaction::Reply(Some(open))
            &&& asked == (HomeView { active: true, ..s })
            &&& answered.reaction(to_home(HomeActions::StartNodes)) != Reaction::Reply(Some(ask))
        }),
{
}

/// A start that lacks a username opens the box that asks for it, on a visible home screen;
/// giving one resets nothing, and the next start asks for the nodes on behalf of that user.
pub proof fn law_start_asks_for_username<P, C>(s: HomeView<P, C>, username: String)
    requires
        !s.lock_registry,
        s.allocated_disk_space != 0,
        s.discord_username.len() == 0,
        username@.len() > 0,
        s.action_sender is Some,
    ensures
        ({
            let ask = to_home(HomeActions::TriggerDiscordUsernameInputBox);
            let open = Action::SwitchScene(Scene::DiscordUsernameInputBox);
            let give = Action::StoreDiscordUserName(username);
            let asked = s.after(to_home(HomeActions::StartNodes)).after(ask).after(open);
            &&& s.reaction(to_home(HomeActions::StartNodes)) == Reaction::Reply(Some(ask))
            &&& s.after(to_home(HomeActions::StartNodes)).reaction(ask) == Reaction::Reply(Some(open))
            &&& asked == (HomeView { active: true, ..s })
            &&& asked.reaction(give) == Reaction::Reply(None)
            &&& asked.after(give).reaction(to_home(HomeActions::StartNodes)) == (Reaction::Maintain {
                count: nodes_fitting(s.allocated_disk_space as nat) % (NODE_COUNT_MODULUS as nat),
                owner: username@,
            })
        }),
{
}

/// A change of the username, where there are nodes of another user, resets the nodes; when
/// that has ended and the registry was read, whatever it holds, the nodes are started on
/// behalf of the new user.
pub proof fn law_new_username_restarts_nodes<P, C>(
    s: HomeView<P, C>,
    username: String,
    nodes: Seq<NodeServiceData>,
)
    requires
        s.renaming_resets(username@),
        s.action_sender is Some,
        s.allocated_disk_space != 0,
        username@.len() > 0,
    ensures
        ({
            let give = Action::StoreDiscordUserName(username);
            let done = to_home(HomeActions::ResetNodesCompleted);
            let start = to_home(HomeActions::StartNodes);
            let reset = s.after(give).after(done).loaded(nodes);
            &&& s.reaction(give) == Reaction::Reset
            &&& s.after(give).lock_registry
            &&& s.after(give).reaction(done) == Reaction::Reload(Some(start))
            &&& reset.reaction(start) == (Reaction::Maintain {
                count: nodes_fitting(s.allocated_disk_space as nat) % (NODE_COUNT_MODULUS as nat),
                owner: username@,
            })
        }),
{
}

/// The same username again, a first username, or one for a machine without nodes resets
/// nothing.
pub proof fn law_username_without_reset<P, C>(s: HomeView<P, C>, username: String)
    requires
        username@ == s.discord_username || s.discord_username.len() == 0
            || s.node_services.len() == 0,
    ensures
        s.reaction(Action::StoreDiscordUserName(username)) == Reaction::Reply(None),
        s.after(Action::StoreDiscordUserName(username)) == (HomeView {
            discord_username: username@,
            ..s
        }),
{
}

/// A stop names every running node, and no other.
pub proof fn law_stop_names_the_running<P, C>(s: HomeView<P, C>, name: Seq<char>)
    requires
        s.reaction(to_home(HomeActions::StopNodes)) is Stop,
    ensures
        s.reaction(to_home(HomeActions::StopNodes))->services.contains(name) <==> exists|i: int|
            0 <= i < s.node_services.len() && (#[trigger] s.node_services[i]).is_running()
                && s.node_services[i].service_name@ == name,
{
    let nodes = s.node_services;
    let keep = |n: NodeServiceData| n.is_running();
    let names = running_names(nodes);
    if names.contains(name) {
        let k = choose|k: int| 0 <= k < names.len() && names[k] == name;
        let node = running(nodes)[k];
        nodes.lemma_filter_contains_rev(keep, node);
        let i = choose|i: int| 0 <= i < nodes.len() && nodes[i] == node;
        nodes.lemma_filter_pred(keep, k);
        assert(nodes[i].is_running());
    }
    if exists|i: int|
        0 <= i < nodes.len() && (#[trigger] nodes[i]).is_running() && nodes[i].service_name@
            == name {
        let i = choose|i: int|
            0 <= i < nodes.len() && (#[trigger] nodes[i]).is_running() && nodes[i].service_name@
                == name;
        nodes.lemma_filter_contains(keep, i);
        let k = choose|k: int| 0 <= k < running(nodes).len() && running(nodes)[k] == nodes[i];
        assert(names[k] == name);
    }
}

/// The home screen is visible exactly while it or a box on top of it is the scene, and
/// taking the scene makes keys be read as commands.
pub proof fn law_scene_decides_visibility<P, C>(s: HomeView<P, C>, scene: Scene, action: Action)
    ensures
        s.after(Action::SwitchScene(scene)).active == shows_home(scene),
        action !is SwitchScene ==> s.after(action).active == s.active,
        s.reaction(Action::SwitchScene(scene)) == Reaction::Reply(
            if scene == Scene::Home {
                Some(Action::SwitchInputMode(InputMode::Navigation))
            } else {
                None
            },
        ),
{
}

/// The note that work is going on is shown exactly while the registry is locked: it alone
/// wipes what is under it.
pub proof fn law_note_while_locked<P, C>(
    s: HomeView<P, C>,
    layers: Seq<Area>,
    header: Seq<Area>,
    popup: Area,
)
    ensures
        s.lock_registry <==> exists|i: int|
            0 <= i < s.picture(layers, header, popup).len() && (#[trigger] s.picture(
                layers,
                header,
                popup,
            )[i]).widget == WidgetView::Clear,
{
    let picture = s.picture(layers, header, popup);
    if s.lock_registry {
        assert(picture[4].widget == WidgetView::Clear);
    }
}

/// The border of the node table is green exactly while a node runs.
pub proof fn law_green_while_running<P, C>(s: HomeView<P, C>)
    ensures
        s.table_border() == green() <==> exists|i: int|
            0 <= i < s.node_services.len() && (#[trigger] s.node_services[i]).is_running(),
{
    let nodes = s.node_services;
    let keep = |n: NodeServiceData| n.is_running();
    if running(nodes).len() > 0 {
        nodes.lemma_filter_pred(keep, 0);
        nodes.lemma_filter_contains_rev(keep, running(nodes)[0]);
        let i = choose|i: int| 0 <= i < nodes.len() && nodes[i] == running(nodes)[0];
        assert(nodes[i].is_running());
    }
    if exists|i: int| 0 <= i < nodes.len() && (#[trigger] nodes[i]).is_running() {
        let i = choose|i: int| 0 <= i < nodes.len() && (#[trigger] nodes[i]).is_running();
        nodes.lemma_filter_contains(keep, i);
    }
}

/// The table has a row for each node, in order, so the selected row shows the selected node.
pub proof fn law_rows_show_nodes<P, C>(s: HomeView<P, C>)
    requires
        s.wf(),
    ensures
        node_rows(s.node_services).len() == s.node_services.len(),
        forall|i: int|
            0 <= i < s.node_services.len() ==> #[trigger] node_rows(s.node_services)[i] == node_row(
                s.node_services[i],
            ),
        s.selection_in_table() ==> node_rows(s.node_services)[s.selected()->0 as int].service
            == s.node_services[s.selected()->0 as int].service_name@,
{
    lemma_present_of_present(s.node_services);
}

/// Statistics are due exactly when more than five seconds have passed since they were last
/// collected, whatever they are; at first they are all zero and count as just collected.
pub proof fn law_stats_keep_interval(stats: NodeStats, collected: u128, now: u128)
    ensures
        (NodeStats { last_update: collected, ..stats }).due(now) <==> now > collected
            + 5_000_000_000,
        NodeStats::none_yet(collected).due(now) <==> now > collected + 5_000_000_000,
        NodeStats::none_yet(collected) == (NodeStats {
            nanos_earned: 0,
            space_allocated: 0,
            memory_usage: 0,
            network_usage: 0,
            last_update: collected,
        }),
{
}

/// The nodes that are asked for take no more than the allocated space, and one node more
/// would not fit; up to the space of all the nodes that can be counted, that is the number
/// of nodes that is asked for.
pub proof fn law_nodes_fit_disk_space(gb: nat)
    ensures
        nodes_fitting(gb) * 5 <= gb < (nodes_fitting(gb) + 1) * 5,
        gb < 65536 * 5 ==> nodes_fitting(gb) % (NODE_COUNT_MODULUS as nat)
            == nodes_fitting(gb),
{
}

/// Whatever space was allocated before, storing another amount makes it the allocation and
/// touches nothing else: only the last amount counts. The next start of a home screen that
/// can start asks for the nodes that fit into it, five GB to a node, counted in 16 bits.
pub proof fn law_stored_disk_space_counts<P, C>(s: HomeView<P, C>, space: usize, earlier: usize)
    ensures
        ({
            let stored = s.after(Action::StoreAllocatedDiskSpace(space));
            &&& stored == (HomeView { allocated_disk_space: space, ..s })
            &&& s.reaction(Action::StoreAllocatedDiskSpace(space)) == Reaction::Reply(None)
            &&& s.after(Action::StoreAllocatedDiskSpace(earlier)).after(
                Action::StoreAllocatedDiskSpace(space),
            ) == stored
            &&& space != 0 && !s.lock_registry && s.discord_username.len() > 0
                && s.action_sender is Some ==> stored.reaction(to_home(HomeActions::StartNodes))
                == (Reaction::Maintain {
                count: ((space as nat) / 5) % 65536,
                owner: s.discord_username,
            })
        }),
{
}

/// Storing a username makes it the username. Where another, non-empty one was known and
/// there is at least one node, however many, the nodes are reset, or the reset is refused
/// for want of a sender, and the registry is locked; else nothing more happens.
pub proof fn law_stored_username_counts<P, C>(s: HomeView<P, C>, username: String)
    ensures
        ({
            let store = Action::StoreDiscordUserName(username);
            let other_owner = s.discord_username.len() > 0 && s.discord_username != username@
                && s.node_services.len() >= 1;
            &&& s.after(store) == (HomeView {
                discord_username: username@,
                lock_registry: s.lock_registry || other_owner,
                ..s
            })
            &&& other_owner && s.action_sender is Some ==> s.reaction(store) == Reaction::Reset
            &&& other_owner && s.action_sender is None ==> s.reaction(store) == Reaction::Refuse
            &&& !other_owner ==> s.reaction(store) == Reaction::Reply(None)
        }),
{
}

/// A start, by what the state holds: refused while locked, else led to the first thing that
/// is missing, else to nodes for the allocated space on behalf of the known user.
pub proof fn law_start_by_what_is_known<P, C>(s: HomeView<P, C>)
    ensures
        ({
            let start = to_home(HomeActions::StartNodes);
            let ready = !s.lock_registry && s.allocated_disk_space > 0 && s.discord_username.len()
                > 0;
            &&& s.after(start) == (HomeView { lock_registry: s.lock_registry || ready, ..s })
            &&& s.lock_registry ==> s.reaction(start) == Reaction::Reply(None)
            &&& !s.lock_registry && s.allocated_disk_space == 0 ==> s.reaction(start)
                == Reaction::Reply(
                Some(to_home(HomeActions::TriggerResourceAllocationInputBox)),
            )
            &&& !s.lock_registry && s.allocated_disk_space > 0 && s.discord_username.len() == 0
                ==> s.reaction(start) == Reaction::Reply(
                Some(to_home(HomeActions::TriggerDiscordUsernameInputBox)),
            )
            &&& ready && s.action_sender is None ==> s.reaction(start) == Reaction::Refuse
            &&& ready && s.action_sender is Some ==> s.reaction(start) == (Reaction::Maintain {
                count: ((s.allocated_disk_space as nat) / 5) % 65536,
                owner: s.discord_username,
            })
        }),
{
}

/// A stop locks the registry and touches nothing else. From an unlocked registry it names
/// each node whose status is Running, in the order of the nodes, with or without disk space,
/// username or any node at all; without a sender it is refused.
pub proof fn law_stop_by_what_is_known<P, C>(s: HomeView<P, C>)
    ensures
        ({
            let stop = to_home(HomeActions::StopNodes);
            &&& s.after(stop) == (HomeView { lock_registry: true, ..s })
            &&& s.lock_registry ==> s.reaction(stop) == Reaction::Reply(None)
            &&& !s.lock_registry && s.action_sender is None ==> s.reaction(stop) == Reaction::Refuse
            &&& !s.lock_registry && s.action_sender is Some ==> s.reaction(stop) == (
            Reaction::Stop {
                services: s.node_services.filter(
                    |n: NodeServiceData| n.status == ServiceStatus::Running,
                ).map_values(|n: NodeServiceData| n.service_name@),
            })
        }),
{
    law_names_of_running(s.node_services);
}

/// The end of any work unlocks the registry, touches nothing else and has the registry read.
/// Only after a reset is a start sent on: after a start or a stop nothing is.
pub proof fn law_end_of_work<P, C>(s: HomeView<P, C>)
    ensures
        ({
            let unlocked = HomeView { lock_registry: false, ..s };
            &&& s.after(to_home(HomeActions::StartNodesCompleted)) == unlocked
            &&& s.after(to_home(HomeActions::StopNodesCompleted)) == unlocked
            &&& s.after(to_home(HomeActions::ResetNodesCompleted)) == unlocked
            &&& s.reaction(to_home(HomeActions::StartNodesCompleted)) == Reaction::Reload(None)
            &&& s.reaction(to_home(HomeActions::StopNodesCompleted)) == Reaction::Reload(None)
            &&& s.reaction(to_home(HomeActions::ResetNodesCompleted)) == Reaction::Reload(
                Some(to_home(HomeActions::StartNodes)),
            )
        }),
{
}

/// Which action leads to what. Of all actions only the end of a reset has a start sent on;
/// the registry is read only at the end of work; nodes are maintained only on a start,
/// stopped only on a stop, reset only on a username; and only the want of a sender refuses.
pub proof fn law_where_reactions_come_from<P, C>(s: HomeView<P, C>, action: Action)
    ensures
        s.reaction(action) == Reaction::Reload(Some(to_home(HomeActions::StartNodes))) ==> action
            == to_home(HomeActions::ResetNodesCompleted),
        s.reaction(action) != Reaction::Reply(Some(to_home(HomeActions::StartNodes))),
        s.reaction(action) is Reload <==> reports_end(action),
        s.reaction(action) is Maintain ==> action == to_home(HomeActions::StartNodes),
        s.reaction(action) is Stop ==> action == to_home(HomeActions::StopNodes),
        s.reaction(action) is Reset ==> action is StoreDiscordUserName,
        s.reaction(action) is Refuse ==> s.action_sender is None,
{
}

/// The home screen shows itself for its own scene and for the two boxes, hides for any
/// other, and changes nothing else then; only its own scene has something sent on.
pub proof fn law_each_scene<P, C>(s: HomeView<P, C>)
    ensures
        ({
            let shown = HomeView { active: true, ..s };
            let resource_box = Action::SwitchScene(Scene::ResourceAllocationInputBox);
            let username_box = Action::SwitchScene(Scene::DiscordUsernameInputBox);
            &&& s.after(Action::SwitchScene(Scene::Home)) == shown
            &&& s.after(resource_box) == shown
            &&& s.after(username_box) == shown
            &&& s.after(Action::SwitchScene(Scene::Other)) == (HomeView { active: false, ..s })
            &&& s.reaction(Action::SwitchScene(Scene::Home)) == Reaction::Reply(
                Some(Action::SwitchInputMode(InputMode::Navigation)),
            )
            &&& s.reaction(resource_box) == Reaction::Reply(None)
            &&& s.reaction(username_box) == Reaction::Reply(None)
            &&& s.reaction(Action::SwitchScene(Scene::Other)) == Reaction::Reply(None)
        }),
{
}

/// In every state the two triggers open their boxes and leave the state as it is.
pub proof fn law_triggers_open_boxes<P, C>(s: HomeView<P, C>)
    ensures
        s.after(to_home(HomeActions::TriggerDiscordUsernameInputBox)) == s,
        s.after(to_home(HomeActions::TriggerResourceAllocationInputBox)) == s,
        s.reaction(to_home(HomeActions::TriggerDiscordUsernameInputBox)) == Reaction::Reply(
            Some(Action::SwitchScene(Scene::DiscordUsernameInputBox)),
        ),
        s.reaction(to_home(HomeActions::TriggerResourceAllocationInputBox)) == Reaction::Reply(
            Some(Action::SwitchScene(Scene::ResourceAllocationInputBox)),
        ),
{
}

/// Messages for other components change nothing and have nothing sent on, in any state.
pub proof fn law_messages_for_others<P, C>(s: HomeView<P, C>, mode: InputMode)
    ensures
        s.after(Action::Other) == s,
        s.after(Action::SwitchInputMode(mode)) == s,
        s.after(to_home(HomeActions::UpdateStats)) == s,
        s.reaction(Action::Other) == Reaction::Reply(None),
        s.reaction(Action::SwitchInputMode(mode)) == Reaction::Reply(None),
        s.reaction(to_home(HomeActions::UpdateStats)) == Reaction::Reply(None),
{
}

/// Where the selection goes, from every state: down by one row but from the last row or
/// past it, which lead to the top; up by one row but from the top, which leads to the last;
/// and to the top where nothing was selected. Nothing else changes, the scroll offset not
/// either, and nothing is sent on.
pub proof fn law_where_the_selection_goes<P, C>(s: HomeView<P, C>)
    requires
        s.rows_fit(),
    ensures
        ({
            let down = to_home(HomeActions::NextTableItem);
            let up = to_home(HomeActions::PreviousTableItem);
            let rows = s.node_services.len();
            let row = s.node_table_state.selected->0;
            let offset = s.node_table_state.offset;
            &&& s.after(down) == (HomeView {
                node_table_state: s.after(down).node_table_state,
                ..s
            })
            &&& s.after(up) == (HomeView { node_table_state: s.after(up).node_table_state, ..s })
            &&& s.after(down).node_table_state.offset == offset
            &&& s.after(up).node_table_state.offset == offset
            &&& s.after(down).node_table_state.selected is Some
            &&& s.after(up).node_table_state.selected is Some
            &&& s.node_table_state.selected is None ==> {
                &&& s.after(down).node_table_state.selected->0 == 0
                &&& s.after(up).node_table_state.selected->0 == 0
            }
            &&& s.node_table_state.selected is Some ==> {
                &&& row + 1 < rows ==> s.after(down).node_table_state.selected->0 == row + 1
                &&& row + 1 >= rows ==> s.after(down).node_table_state.selected->0 == 0
                &&& row > 0 ==> s.after(up).node_table_state.selected->0 == row - 1
                &&& row == 0 && rows > 0 ==> s.after(up).node_table_state.selected->0 == rows - 1
            }
            &&& s.reaction(down) == Reaction::Reply(None)
            &&& s.reaction(up) == Reaction::Reply(None)
        }),
{
}

/// Every action is taken in every state, but for a move around the end of an empty table.
pub proof fn law_what_is_taken<P, C>(s: HomeView<P, C>, action: Action)
    ensures
        s.accepts(action) <==> {
            let empty = s.node_services.len() == 0;
            let selected = s.node_table_state.selected;
            &&& !(empty && selected is Some && action == to_home(HomeActions::NextTableItem))
            &&& !(empty && selected == Some(0usize) && action == to_home(
                HomeActions::PreviousTableItem,
            ))
        },
        action == to_home(HomeActions::NextTableItem) ==> s.can_select_next() == s.accepts(action),
        action == to_home(HomeActions::PreviousTableItem) ==> s.can_select_previous() == s.accepts(
            action,
        ),
        s.selection_in_table() <==> s.node_table_state.selected is Some
            && s.node_table_state.selected->0 < s.node_services.len(),
        s.selected() == s.node_table_state.selected,
        s.rows_fit() <==> s.node_services.len() <= usize::MAX,
{
}

/// An answer carries what was decided: the action to send on, the names to stop in their
/// order, and for nodes to maintain their number, their owner, a clone of the peers and the
/// binary that the component was given, and ten seconds between starts.
pub proof fn law_answers_carry_decisions<P: Clone, C>(
    s: HomeView<P, C>,
    res: Result<Outcome<P>, HomeError>,
    reaction: Reaction,
)
    requires
        s.answers(res, reaction),
    ensures
        reaction matches Reaction::Reply(next) ==> res == Ok::<Outcome<P>, HomeError>(
            Outcome::Reply(next),
        ),
        reaction matches Reaction::Reload(next) ==> res == Ok::<Outcome<P>, HomeError>(
            Outcome::Reload(next),
        ),
        reaction is Reset ==> res == Ok::<Outcome<P>, HomeError>(Outcome::Run(Task::ResetNodes)),
        reaction is Refuse ==> res == Err::<Outcome<P>, HomeError>(
            HomeError::ActionSenderNotRegistered,
        ),
        reaction matches Reaction::Stop { services } ==> {
            &&& res is Ok
            &&& res->Ok_0 is Run
            &&& res->Ok_0->Run_0 is StopNodes
            &&& res->Ok_0->Run_0->services@.len() == services.len()
            &&& forall|i: int|
                0 <= i < services.len() ==> (#[trigger] res->Ok_0->Run_0->services@[i])@
                    == services[i]
        },
        reaction matches Reaction::Maintain { count, owner } ==> {
            &&& res is Ok
            &&& res->Ok_0 is Run
            &&& res->Ok_0->Run_0 is MaintainRunningNodes
            &&& res->Ok_0->Run_0->count == count
            &&& res->Ok_0->Run_0->owner@ == owner
            &&& cloned(s.peers_args, res->Ok_0->Run_0->peers_args)
            &&& res->Ok_0->Run_0->safenode_path == s.safenode_path
            &&& res->Ok_0->Run_0->start_interval == 10
        },
{
    if let Reaction::Stop { services } = reaction {
        let stopped = res->Ok_0->Run_0->services@;
        law_texts_of_strings(stopped);
    }
}

/// Each task has its own report, and what the report is does not depend on what the task
/// was given.
pub proof fn law_reports<P>(task: Task<P>)
    ensures
        task is MaintainRunningNodes ==> task.report() == to_home(HomeActions::StartNodesCompleted),
        task is StopNodes ==> task.report() == to_home(HomeActions::StopNodesCompleted),
        task is ResetNodes ==> task.report() == to_home(HomeActions::ResetNodesCompleted),
{
}

/// The nodes known after reading a registry depend on that registry alone: they are those of
/// its entries whose status is not Removed, each as it stands there, in its order, and what
/// was known before leaves no trace. Nothing else changes, but for a selection where there
/// was none and there is a row.
pub proof fn law_registry_decides_nodes<P, C>(
    s: HomeView<P, C>,
    earlier: Seq<NodeServiceData>,
    nodes: Seq<NodeServiceData>,
    node: NodeServiceData,
)
    ensures
        s.loaded(nodes).node_services == nodes.filter(
            |n: NodeServiceData| n.status != ServiceStatus::Removed,
        ),
        s.loaded(nodes).node_services.contains(node) <==> nodes.contains(node) && node.status
            != ServiceStatus::Removed,
        s.loaded(earlier).loaded(nodes).node_services == s.loaded(nodes).node_services,
        s.loaded(nodes) == (HomeView {
            node_services: s.loaded(nodes).node_services,
            node_table_state: TableSelection {
                offset: s.node_table_state.offset,
                selected: if s.node_table_state.selected is None && s.loaded(
                    nodes,
                ).node_services.len() > 0 {
                    Some(0usize)
                } else {
                    s.node_table_state.selected
                },
            },
            ..s
        }),
{
    law_present_nodes(nodes, node);
}

/// A registry entry that was changed is known as it is now: where two registries differ in
/// one entry that neither holds as removed, so do the nodes known after reading them.
pub proof fn law_changed_entry_is_taken_over<P, C>(
    s: HomeView<P, C>,
    before: Seq<NodeServiceData>,
    changed: NodeServiceData,
    i: int,
)
    requires
        none_removed(before),
        0 <= i < before.len(),
        changed.status != ServiceStatus::Removed,
    ensures
        s.loaded(before).loaded(before.update(i, changed)).node_services == before.update(
            i,
            changed,
        ),
{
    let after = before.update(i, changed);
    assert forall|j: int| 0 <= j < after.len() implies (#[trigger] after[j]).is_present() by {
        assert(before[j].is_present());
    }
    lemma_present_of_present(after);
}

/// What is left after taking out removed nodes holds none of them.
proof fn lemma_present(nodes: Seq<NodeServiceData>)
    ensures
        none_removed(present(nodes)),
{
    let keep = |n: NodeServiceData| n.is_present();
    assert forall|i: int| 0 <= i < present(nodes).len() implies (#[trigger] present(
        nodes,
    )[i]).is_present() by {
        nodes.lemma_filter_pred(keep, i);
    }
}

/// Where no node was removed, there is none to take out.
proof fn lemma_present_of_present(nodes: Seq<NodeServiceData>)
    requires
        none_removed(nodes),
    ensures
        present(nodes) == nodes,
    decreases nodes.len(),
{
    reveal(Seq::filter);
    if nodes.len() > 0 {
        assert(nodes.last().is_present());
        assert(none_removed(nodes.drop_last())) by {
            assert forall|i: int| 0 <= i < nodes.drop_last().len() implies (
            #[trigger] nodes.drop_last()[i]).is_present() by {
                assert(nodes[i].is_present());
            }
        }
        lemma_present_of_present(nodes.drop_last());
        assert(nodes.drop_last().push(nodes.last()) =~= nodes);
    }
}

} // verus!

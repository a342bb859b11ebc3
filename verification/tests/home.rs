use node_launchpad::action::{Action, HomeActions};
use node_launchpad::home::Home;
use node_launchpad::layout::Area;
use node_launchpad::mode::{InputMode, Scene};
use node_launchpad::node::{NodeServiceData, RpcAddress, ServiceStatus};
use node_launchpad::screen::{Drawing, NodeRow, Widget};
use node_launchpad::table::TableSelection;
use node_launchpad::task::{HomeError, Outcome, Task};
use std::path::PathBuf;
use tokio::sync::mpsc::unbounded_channel;

const SCREEN: Area = Area { x: 0, y: 0, width: 80, height: 24 };
const SECOND: u128 = 1_000_000_000;

fn node(name: &str, status: ServiceStatus) -> NodeServiceData {
    NodeServiceData {
        service_name: name.to_string(),
        peer_id: None,
        status,
        rpc_socket_addr: RpcAddress::V4 { octets: [127, 0, 0, 1], port: 13000 },
        data_dir_path: PathBuf::from("/var/safenode-manager").join(name),
    }
}

fn nodes(names: &[&str], status: ServiceStatus) -> Vec<NodeServiceData> {
    names.iter().map(|n| node(n, status)).collect()
}

fn home_with(space: usize, user: &str, registry: Vec<NodeServiceData>) -> Home<Vec<u32>, u8> {
    let path = Some(PathBuf::from("/opt/safenode"));
    Home::new::<String>(space, user, vec![1, 2], path, Ok(registry), 0).unwrap()
}

fn registered(space: usize, user: &str, registry: Vec<NodeServiceData>) -> Home<Vec<u32>, u8> {
    let mut home = home_with(space, user, registry);
    let (tx, _rx) = unbounded_channel();
    assert_eq!(home.register_action_handler(tx), Ok(()));
    home
}

fn act(action: HomeActions) -> Action {
    Action::HomeActions(action)
}

fn reply(home: &mut Home<Vec<u32>, u8>, action: Action) -> Option<Action> {
    assert!(home.can_handle(&action));
    match home.update(action) {
        Ok(Outcome::Reply(next)) => next,
        _ => panic!("expected a reply"),
    }
}

fn task(home: &mut Home<Vec<u32>, u8>, action: Action) -> Task<Vec<u32>> {
    match home.update(action) {
        Ok(Outcome::Run(task)) => task,
        _ => panic!("expected a task"),
    }
}

fn reload(home: &mut Home<Vec<u32>, u8>, action: Action, registry: Vec<NodeServiceData>) -> Option<Action> {
    match home.update(action) {
        Ok(Outcome::Reload(next)) => home.reload::<String>(Ok(registry), next).unwrap(),
        _ => panic!("expected a reload"),
    }
}

fn table(drawings: &[Drawing]) -> (&Vec<NodeRow>, TableSelection, bool) {
    match &drawings[3].widget {
        Widget::Table { rows, look, state } => (rows, *state, look.block.border_style.color.is_some()),
        _ => panic!("expected the table"),
    }
}

fn text(drawing: &Drawing) -> &str {
    match &drawing.widget {
        Widget::Paragraph { text, .. } => text,
        _ => panic!("expected text"),
    }
}

fn selected(home: &Home<Vec<u32>, u8>) -> Option<usize> {
    table(&home.draw(SCREEN)).1.selected
}

fn is_locked(home: &Home<Vec<u32>, u8>) -> bool {
    home.draw(SCREEN).len() == 6
}

#[test]
fn new_keeps_the_nodes_that_were_not_removed() {
    let mut registry = nodes(&["a", "b"], ServiceStatus::Running);
    registry.insert(1, node("gone", ServiceStatus::Removed));
    let home = home_with(5, "bob", registry);
    let drawings = home.draw(SCREEN);
    let (rows, state, green) = table(&drawings);
    assert_eq!(rows.len(), 2);
    assert_eq!(rows[0].service, "a");
    assert_eq!(rows[1].service, "b");
    assert_eq!(state, TableSelection { offset: 0, selected: Some(0) });
    assert!(green);
    assert_eq!(home.get_running_nodes(), vec!["a".to_string(), "b".to_string()]);
}

#[test]
fn new_fails_as_the_registry_failed() {
    let home = Home::<u8, u8>::new(5, "bob", 0, None, Err("no such file"), 0);
    assert!(matches!(home, Err("no such file")));
}

#[test]
fn new_selects_nothing_in_an_empty_table() {
    let home = home_with(5, "bob", nodes(&["x"], ServiceStatus::Removed));
    assert_eq!(selected(&home), None);
    assert!(!is_locked(&home));
}

#[test]
fn switching_scenes_shows_and_hides() {
    let mut home = home_with(5, "bob", vec![]);
    assert_eq!(reply(&mut home, Action::SwitchScene(Scene::Other)), None);
    assert_eq!(home.draw(SCREEN).len(), 0);
    assert_eq!(reply(&mut home, Action::SwitchScene(Scene::DiscordUsernameInputBox)), None);
    assert_eq!(home.draw(SCREEN).len(), 4);
    reply(&mut home, Action::SwitchScene(Scene::Other));
    assert_eq!(reply(&mut home, Action::SwitchScene(Scene::ResourceAllocationInputBox)), None);
    assert_eq!(home.draw(SCREEN).len(), 4);
    reply(&mut home, Action::SwitchScene(Scene::Other));
    let navigation = Some(Action::SwitchInputMode(InputMode::Navigation));
    assert_eq!(reply(&mut home, Action::SwitchScene(Scene::Home)), navigation);
    assert_eq!(home.draw(SCREEN).len(), 4);
}

#[test]
fn start_runs_as_many_nodes_as_fit() {
    let mut home = registered(23, "bob", vec![]);
    let task = task(&mut home, act(HomeActions::StartNodes));
    assert_eq!(task.completion(), act(HomeActions::StartNodesCompleted));
    match task {
        Task::MaintainRunningNodes { count, owner, peers_args, safenode_path, start_interval } => {
            assert_eq!(count, 4);
            assert_eq!(owner, "bob");
            assert_eq!(peers_args, vec![1, 2]);
            assert_eq!(safenode_path, Some(PathBuf::from("/opt/safenode")));
            assert_eq!(start_interval, 10);
        }
        _ => panic!("expected nodes to be maintained"),
    }
    assert!(is_locked(&home));
}

#[test]
fn start_counts_nodes_in_16_bits() {
    let mut home = registered(5 * 65536 + 12, "bob", vec![]);
    let task = task(&mut home, act(HomeActions::StartNodes));
    assert!(matches!(task, Task::MaintainRunningNodes { count: 2, .. }));
}

#[test]
fn start_with_less_space_than_a_node_runs_none() {
    let mut home = registered(4, "bob", vec![]);
    let task = task(&mut home, act(HomeActions::StartNodes));
    assert!(matches!(task, Task::MaintainRunningNodes { count: 0, .. }));
}

#[test]
fn start_asks_for_disk_space_first() {
    let mut home = registered(0, "", vec![]);
    let ask = act(HomeActions::TriggerResourceAllocationInputBox);
    assert_eq!(reply(&mut home, act(HomeActions::StartNodes)), Some(ask.clone()));
    let open = Action::SwitchScene(Scene::ResourceAllocationInputBox);
    assert_eq!(reply(&mut home, ask), Some(open.clone()));
    assert_eq!(reply(&mut home, open), None);
    assert_eq!(reply(&mut home, Action::StoreAllocatedDiskSpace(10)), None);
    let ask = act(HomeActions::TriggerDiscordUsernameInputBox);
    assert_eq!(reply(&mut home, act(HomeActions::StartNodes)), Some(ask.clone()));
    let open = Action::SwitchScene(Scene::DiscordUsernameInputBox);
    assert_eq!(reply(&mut home, ask), Some(open.clone()));
    assert_eq!(reply(&mut home, open), None);
    assert_eq!(reply(&mut home, Action::StoreDiscordUserName("ann".to_string())), None);
    let task = task(&mut home, act(HomeActions::StartNodes));
    assert!(matches!(task, Task::MaintainRunningNodes { count: 2, owner, .. } if owner == "ann"));
}

#[test]
fn start_without_a_sender_fails_and_locks() {
    let mut home = home_with(5, "bob", vec![]);
    let res = home.update(act(HomeActions::StartNodes));
    assert!(matches!(res, Err(HomeError::ActionSenderNotRegistered)));
    assert!(is_locked(&home));
    assert_eq!(HomeError::ActionSenderNotRegistered.message(), "Action sender not registered");
    assert!(home.get_actions_sender().is_err());
}

#[test]
fn stop_without_a_sender_fails_and_locks() {
    let mut home = home_with(5, "bob", nodes(&["a"], ServiceStatus::Running));
    let res = home.update(act(HomeActions::StopNodes));
    assert!(matches!(res, Err(HomeError::ActionSenderNotRegistered)));
    assert!(is_locked(&home));
}

#[test]
fn rename_without_a_sender_fails_and_locks() {
    let mut home = home_with(5, "bob", nodes(&["a"], ServiceStatus::Stopped));
    let res = home.update(Action::StoreDiscordUserName("ann".to_string()));
    assert!(matches!(res, Err(HomeError::ActionSenderNotRegistered)));
    assert!(is_locked(&home));
    assert_eq!(text(&home.draw(SCREEN)[1]), "Discord Username: ann");
}

#[test]
fn stop_names_the_running_nodes() {
    let mut registry = nodes(&["a", "b", "c"], ServiceStatus::Running);
    registry[1].status = ServiceStatus::Stopped;
    let mut home = registered(5, "bob", registry);
    let task = task(&mut home, act(HomeActions::StopNodes));
    assert_eq!(task.completion(), act(HomeActions::StopNodesCompleted));
    match task {
        Task::StopNodes { services } => assert_eq!(services, vec!["a".to_string(), "c".to_string()]),
        _ => panic!("expected nodes to be stopped"),
    }
    assert!(is_locked(&home));
}

#[test]
fn locked_registry_refuses_start_and_stop() {
    let mut home = registered(5, "bob", nodes(&["a"], ServiceStatus::Running));
    task(&mut home, act(HomeActions::StopNodes));
    assert_eq!(reply(&mut home, act(HomeActions::StartNodes)), None);
    assert_eq!(reply(&mut home, act(HomeActions::StopNodes)), None);
    assert!(is_locked(&home));
}

#[test]
fn completion_unlocks_and_reads_the_registry() {
    for done in [HomeActions::StartNodesCompleted, HomeActions::StopNodesCompleted] {
        let mut home = registered(5, "bob", vec![]);
        task(&mut home, act(HomeActions::StartNodes));
        let next = reload(&mut home, act(done), nodes(&["a", "b"], ServiceStatus::Running));
        assert_eq!(next, None);
        assert!(!is_locked(&home));
        assert_eq!(home.get_running_nodes().len(), 2);
        assert_eq!(selected(&home), Some(0));
    }
}

#[test]
fn failed_reload_leaves_the_nodes_and_the_lock_off() {
    let mut home = registered(5, "bob", nodes(&["a"], ServiceStatus::Running));
    task(&mut home, act(HomeActions::StopNodes));
    match home.update(act(HomeActions::ResetNodesCompleted)) {
        Ok(Outcome::Reload(next)) => assert_eq!(home.reload(Err("unreadable"), next), Err("unreadable")),
        _ => panic!("expected a reload"),
    }
    assert!(!is_locked(&home));
    assert_eq!(home.get_running_nodes(), vec!["a".to_string()]);
}

#[test]
fn new_username_resets_and_restarts() {
    let mut home = registered(10, "bob", nodes(&["a"], ServiceStatus::Running));
    let reset = task(&mut home, Action::StoreDiscordUserName("ann".to_string()));
    assert!(matches!(reset, Task::ResetNodes));
    assert_eq!(reset.completion(), act(HomeActions::ResetNodesCompleted));
    assert!(is_locked(&home));
    let next = reload(&mut home, reset.completion(), vec![]);
    assert_eq!(next, Some(act(HomeActions::StartNodes)));
    let start = task(&mut home, next.unwrap());
    assert!(matches!(start, Task::MaintainRunningNodes { count: 2, owner, .. } if owner == "ann"));
}

#[test]
fn username_without_nodes_or_change_resets_nothing() {
    let mut home = registered(10, "bob", vec![]);
    assert_eq!(reply(&mut home, Action::StoreDiscordUserName("ann".to_string())), None);
    let mut home = registered(10, "bob", nodes(&["a"], ServiceStatus::Running));
    assert_eq!(reply(&mut home, Action::StoreDiscordUserName("bob".to_string())), None);
    let mut home = registered(10, "", nodes(&["a"], ServiceStatus::Running));
    assert_eq!(reply(&mut home, Action::StoreDiscordUserName("ann".to_string())), None);
    assert!(!is_locked(&home));
}

#[test]
fn actions_for_others_change_nothing() {
    let mut home = registered(10, "bob", nodes(&["a"], ServiceStatus::Running));
    let before = home.draw(SCREEN);
    assert_eq!(reply(&mut home, Action::Other), None);
    assert_eq!(reply(&mut home, Action::SwitchInputMode(InputMode::Entry)), None);
    assert_eq!(reply(&mut home, act(HomeActions::UpdateStats)), None);
    assert_eq!(home.draw(SCREEN), before);
}

#[test]
fn selection_moves_around_the_table() {
    let mut home = registered(10, "bob", nodes(&["a", "b", "c"], ServiceStatus::Running));
    let mut seen = vec![];
    for _ in 0..4 {
        reply(&mut home, act(HomeActions::NextTableItem));
        seen.push(selected(&home).unwrap());
    }
    assert_eq!(seen, vec![1, 2, 0, 1]);
    let mut seen = vec![];
    for _ in 0..3 {
        reply(&mut home, act(HomeActions::PreviousTableItem));
        seen.push(selected(&home).unwrap());
    }
    assert_eq!(seen, vec![0, 2, 1]);
    assert_eq!(home.get_service_name_of_selected_table_item(), Some("b".to_string()));
}

#[test]
fn moving_from_no_selection_selects_the_top() {
    let mut home = home_with(5, "bob", nodes(&["a", "b"], ServiceStatus::Added));
    home.select_next_table_item();
    home.scroll_table_to(1);
    home.unselect_table_item();
    let drawings = home.draw(SCREEN);
    assert_eq!(table(&drawings).1, TableSelection { offset: 0, selected: None });
    assert_eq!(home.get_service_name_of_selected_table_item(), None);
    home.select_next_table_item();
    assert_eq!(selected(&home), Some(0));
    home.unselect_table_item();
    home.select_previous_table_item();
    assert_eq!(selected(&home), Some(0));
}

#[test]
fn moving_keeps_the_scroll_offset() {
    let mut home = home_with(5, "bob", nodes(&["a", "b"], ServiceStatus::Added));
    home.scroll_table_to(1);
    home.select_next_table_item();
    let drawings = home.draw(SCREEN);
    assert_eq!(table(&drawings).1, TableSelection { offset: 1, selected: Some(1) });
}

#[test]
fn selection_outlives_a_shrinking_table() {
    let mut home = registered(5, "bob", nodes(&["a", "b", "c"], ServiceStatus::Running));
    reply(&mut home, act(HomeActions::PreviousTableItem));
    assert_eq!(selected(&home), Some(2));
    home.load_node_registry_and_update_states::<String>(Ok(nodes(&["a"], ServiceStatus::Running))).unwrap();
    assert_eq!(selected(&home), Some(2));
    assert_eq!(home.get_service_name_of_selected_table_item(), None);
    reply(&mut home, act(HomeActions::NextTableItem));
    assert_eq!(selected(&home), Some(0));
    home.load_node_registry_and_update_states::<String>(Ok(vec![])).unwrap();
    assert!(!home.can_handle(&act(HomeActions::NextTableItem)));
    assert!(!home.can_handle(&act(HomeActions::PreviousTableItem)));
    assert!(home.can_handle(&act(HomeActions::StartNodes)));
}

#[test]
fn stats_are_collected_after_the_interval() {
    let mut home = registered(5, "bob", vec![]);
    let due = Ok(Some(act(HomeActions::UpdateStats)));
    assert_eq!(home.try_update_stats(5 * SECOND), Ok(None));
    assert_eq!(home.try_update_stats(5 * SECOND + 1), due.clone());
    assert_eq!(home.try_update_stats(10 * SECOND + 1), Ok(None));
    assert_eq!(home.try_update_stats(3 * SECOND), Ok(None));
    assert_eq!(home.try_update_stats(10 * SECOND + 2), due);
}

#[test]
fn stats_without_a_sender_fail_once_per_interval() {
    let mut home = home_with(5, "bob", vec![]);
    let err = Err(HomeError::ActionSenderNotRegistered);
    assert_eq!(home.try_update_stats(6 * SECOND), err);
    assert_eq!(home.try_update_stats(7 * SECOND), Ok(None));
}

#[test]
fn registered_sender_is_handed_out() {
    let mut home = home_with(5, "bob", vec![]);
    let (tx, mut rx) = unbounded_channel();
    home.register_action_handler(tx.clone()).unwrap();
    let sender = home.get_actions_sender().unwrap();
    assert!(sender.same_channel(&tx));
    assert!(sender.send(Action::Other).is_ok());
    assert_eq!(rx.try_recv(), Ok(Action::Other));
    assert_eq!(home.register_config_handler(7), Ok(()));
}

use node_launchpad::action::{Action, HomeActions};
use node_launchpad::home::Home;
use node_launchpad::layout::{centered_rect_fixed, Area, Constraint};
use node_launchpad::node::{names_of_running, NodeServiceData, RpcAddress, ServiceStatus};
use node_launchpad::resource_allocation::node_count;
use node_launchpad::screen::{Alignment, Block, BorderType, Color, Drawing, Style, Widget};
use node_launchpad::stats::NodeStats;
use std::path::PathBuf;
use tokio::sync::mpsc::unbounded_channel;

const SCREEN: Area = Area { x: 3, y: 2, width: 80, height: 24 };
const PLAIN: Style = Style { color: None, bold: false, reversed: false };
const BOLD: Style = Style { color: None, bold: true, reversed: false };

fn node(name: &str, peer: Option<&str>, status: ServiceStatus, port: u16) -> NodeServiceData {
    NodeServiceData {
        service_name: name.to_string(),
        peer_id: peer.map(|p| p.to_string()),
        status,
        rpc_socket_addr: RpcAddress::V4 { octets: [10, 0, 0, 1], port },
        data_dir_path: PathBuf::from(name),
    }
}

fn home(user: &str, registry: Vec<NodeServiceData>) -> Home<u8, u8> {
    Home::new::<()>(5, user, 0, None, Ok(registry), 0).unwrap()
}

fn paragraph(text: &str, alignment: Alignment, block: Option<Block>) -> Widget {
    Widget::Paragraph { text: text.to_string(), alignment, block }
}

fn border(drawing: &Drawing) -> Style {
    match &drawing.widget {
        Widget::Table { look, .. } => look.block.border_style,
        _ => panic!("expected the table"),
    }
}

#[test]
fn empty_home_screen() {
    let drawings = home("", vec![]).draw(SCREEN);
    let status = Block {
        title: Some("Device Status"),
        border_type: BorderType::Plain,
        border_style: PLAIN,
        padding: 1,
    };
    let none = "No nodes detected.\nUse the Manage nodes command to begin.";
    assert_eq!(drawings.len(), 4);
    assert_eq!(drawings[0].widget, paragraph("Autonomi Node Launchpad", Alignment::Left, None));
    assert_eq!(drawings[1].widget, paragraph("", Alignment::Right, None));
    assert_eq!(drawings[2].widget, paragraph(none, Alignment::Left, Some(status)));
    match &drawings[3].widget {
        Widget::Table { rows, look, state } => {
            assert!(rows.is_empty());
            assert_eq!(state.selected, None);
            assert_eq!(look.header, ("Service", "PeerId", "Status"));
            assert_eq!(look.header_style, BOLD);
            assert_eq!(look.header_margin, 1);
            assert_eq!(look.widths, (Constraint::Max(15), Constraint::Min(30), Constraint::Max(10)));
            assert_eq!(look.column_spacing, 2);
            assert_eq!(look.highlight_style, Style { color: None, bold: false, reversed: true });
            assert_eq!(look.highlight_symbol, ">");
            assert_eq!(look.block.title, Some("Node list"));
            assert_eq!(look.block.padding, 0);
        }
        _ => panic!("expected the table"),
    }
}

#[test]
fn rows_show_name_peer_and_status() {
    let registry = vec![
        node("n1", Some("12D3Koo"), ServiceStatus::Running, 1),
        node("n2", None, ServiceStatus::Added, 2),
        node("n3", None, ServiceStatus::Removed, 3),
        node("n4", None, ServiceStatus::Stopped, 4),
    ];
    let drawings = home("bob", registry).draw(SCREEN);
    assert_eq!(drawings[1].widget, paragraph("Discord Username: bob", Alignment::Right, None));
    match &drawings[3].widget {
        Widget::Table { rows, .. } => {
            let cells: Vec<(&str, &str, &str)> = rows
                .iter()
                .map(|r| (r.service.as_str(), r.peer_id.as_str(), r.status.as_str()))
                .collect();
            let expected = vec![
                ("n1", "12D3Koo", "Running"),
                ("n2", "-", "Added"),
                ("n4", "-", "Stopped"),
            ];
            assert_eq!(cells, expected);
        }
        _ => panic!("expected the table"),
    }
    assert_eq!(ServiceStatus::Removed.label(), "Removed");
}

#[test]
fn border_is_green_while_a_node_runs() {
    let none = vec![node("a", None, ServiceStatus::Added, 1), node("b", None, ServiceStatus::Stopped, 2)];
    assert_eq!(border(&home("bob", none).draw(SCREEN)[3]), PLAIN);
    let one = vec![node("a", None, ServiceStatus::Running, 1), node("b", None, ServiceStatus::Stopped, 2)];
    let two = vec![node("a", None, ServiceStatus::Running, 1), node("b", None, ServiceStatus::Running, 2)];
    let green = Style { color: Some(Color::Green), bold: false, reversed: false };
    assert_eq!(border(&home("bob", one).draw(SCREEN)[3]), green);
    assert_eq!(border(&home("bob", two).draw(SCREEN)[3]), green);
}

#[test]
fn note_is_shown_in_the_middle_while_locked() {
    let mut home = home("bob", vec![]);
    assert!(home.update(Action::HomeActions(HomeActions::StartNodes)).is_err());
    let drawings = home.draw(SCREEN);
    let middle = Area { x: 30, y: 12, width: 25, height: 3 };
    let block = Block { title: None, border_type: BorderType::Double, border_style: BOLD, padding: 0 };
    assert_eq!(drawings.len(), 6);
    assert_eq!(drawings[4], Drawing { area: middle, widget: Widget::Clear });
    assert_eq!(
        drawings[5],
        Drawing { area: middle, widget: paragraph("Please wait...", Alignment::Center, Some(block)) }
    );
}

#[test]
fn rows_of_the_screen_follow_each_other() {
    let drawings = home("bob", vec![]).draw(SCREEN);
    let (title, user, status, table) =
        (drawings[0].area, drawings[1].area, drawings[2].area, drawings[3].area);
    assert_eq!((title.x, title.y, title.height), (3, 2, 1));
    assert_eq!((user.y, user.height), (2, 1));
    assert_eq!(user.x, title.x + title.width);
    assert_eq!(title.width + user.width, 80);
    assert!(title.width >= 40);
    assert_eq!((status.x, status.y, status.width), (3, 3, 80));
    assert!(status.height >= 5);
    assert_eq!((table.x, table.y, table.width), (3, status.y + status.height, 80));
    assert!(table.height >= 3);
    assert!(table.y + table.height <= 26);
}

#[test]
fn compose_puts_drawings_where_it_is_told() {
    let at = |n: u16| Area { x: n, y: n, width: n, height: n };
    let drawings = home("bob", vec![]).compose(&vec![at(1), at(2), at(3), at(4)], &vec![at(5), at(6)], at(7));
    let areas: Vec<Area> = drawings.iter().map(|d| d.area).collect();
    assert_eq!(areas, vec![at(5), at(6), at(2), at(3)]);
}

#[test]
fn centred_area_is_cut_to_fit() {
    let small = Area { x: 4, y: 6, width: 10, height: 2 };
    assert_eq!(centered_rect_fixed(25, 3, small), small);
    let edge = Area { x: u16::MAX, y: 0, width: 101, height: 5 };
    let cut = Area { x: u16::MAX, y: 1, width: 1, height: 3 };
    assert_eq!(centered_rect_fixed(1, 3, edge), cut);
}

#[test]
fn stats_are_asked_of_running_nodes() {
    let nodes = vec![
        node("a", None, ServiceStatus::Running, 1),
        node("b", None, ServiceStatus::Stopped, 2),
        node("c", None, ServiceStatus::Running, 3),
    ];
    let (tx, _rx) = unbounded_channel();
    let fetch = NodeStats::fetch_all_node_stats(&nodes, tx.clone());
    let address = |port| RpcAddress::V4 { octets: [10, 0, 0, 1], port };
    assert_eq!(fetch.targets, vec![(address(1), PathBuf::from("a")), (address(3), PathBuf::from("c"))]);
    assert!(fetch.action_sender.same_channel(&tx));
    assert_eq!(names_of_running(&nodes), vec!["a".to_string(), "c".to_string()]);
}

#[test]
fn node_count_is_what_fits() {
    assert_eq!(node_count(0), 0);
    assert_eq!(node_count(14), 2);
    assert_eq!(node_count(15), 3);
    assert_eq!(node_count(327_679), 65535);
    assert_eq!(node_count(327_680), 0);
}

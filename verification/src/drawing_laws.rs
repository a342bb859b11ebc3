//! What holds of the drawings of the home screen.

use crate::layout::{can_split_into, centered, Area, Constraint, Direction};
use crate::laws::law_rows_show_nodes;
use crate::node::{present, NodeServiceData, ServiceStatus};
use crate::node_laws::{law_present_grows, law_words};
use crate::screen::{
    drawing_views, node_rows, row_views, Alignment, Block, BorderType, Color, Drawing, NodeRow,
    Style, TableLook, Widget,
};
use crate::state::HomeView;
use crate::table::TableSelection;
use crate::task::HomeError;
use vstd::prelude::*;

verus! {

/// What drawings show is what each of them shows, in order; and the same of table rows.
pub proof fn law_views_of_drawings(drawings: Seq<Drawing>, rows: Seq<NodeRow>)
    ensures
        drawing_views(drawings).len() == drawings.len(),
        forall|i: int|
            0 <= i < drawings.len() ==> #[trigger] drawing_views(drawings)[i] == drawings[i]@,
        row_views(rows).len() == rows.len(),
        forall|i: int|
            0 <= i < rows.len() ==> {
                &&& (#[trigger] row_views(rows)[i]).service == rows[i].service@
                &&& row_views(rows)[i].peer_id == rows[i].peer_id@
                &&& row_views(rows)[i].status == rows[i].status@
            },
{
}

/// A home screen that is not active draws nothing. An active one draws four things, and two
/// more on top of them while the registry is locked, and nothing else.
pub proof fn law_number_of_drawings<P, C>(s: HomeView<P, C>, drawings: Seq<Drawing>, area: Area)
    requires
        s.shown_by(drawing_views(drawings), area),
    ensures
        !s.active ==> drawings.len() == 0,
        s.active && !s.lock_registry ==> drawings.len() == 4,
        s.active && s.lock_registry ==> drawings.len() == 6,
{
    law_views_of_drawings(drawings, Seq::empty());
}

/// The header names the program on the left, and on the right the user after a label, or
/// nothing where no user is known.
pub proof fn law_header<P, C>(
    s: HomeView<P, C>,
    drawings: Seq<Drawing>,
    layers: Seq<Area>,
    header: Seq<Area>,
    popup: Area,
)
    requires
        drawing_views(drawings) == s.picture(layers, header, popup),
    ensures
        drawings.len() >= 2,
        drawings[0].area == header[0],
        drawings[1].area == header[1],
        drawings[0].widget is Paragraph,
        drawings[0].widget->text@ == "Autonomi Node Launchpad"@,
        drawings[0].widget->alignment == Alignment::Left,
        drawings[0].widget->block is None,
        drawings[1].widget is Paragraph,
        s.discord_username.len() == 0 ==> drawings[1].widget->text@.len() == 0,
        s.discord_username.len() > 0 ==> drawings[1].widget->text@ == "Discord Username: "@
            + s.discord_username,
        drawings[1].widget->alignment == Alignment::Right,
        drawings[1].widget->block is None,
{
    law_views_of_drawings(drawings, Seq::empty());
    assert(drawing_views(drawings)[0] == drawings[0]@);
    assert(drawing_views(drawings)[1] == drawings[1]@);
}

/// The device status says that there are no nodes exactly where none is known, in a titled
/// frame with one empty cell inside of it.
pub proof fn law_device_status<P, C>(
    s: HomeView<P, C>,
    drawings: Seq<Drawing>,
    layers: Seq<Area>,
    header: Seq<Area>,
    popup: Area,
)
    requires
        drawing_views(drawings) == s.picture(layers, header, popup),
    ensures
        drawings.len() >= 3,
        drawings[2].area == layers[1],
        drawings[2].widget is Paragraph,
        s.node_services.len() == 0 ==> drawings[2].widget->text@
            == "No nodes detected.\nUse the Manage nodes command to begin."@,
        s.node_services.len() > 0 ==> drawings[2].widget->text@ == "todo: display a table"@,
        drawings[2].widget->alignment == Alignment::Left,
        drawings[2].widget->block == Some(
            Block {
                title: Some("Device Status"),
                border_type: BorderType::Plain,
                border_style: Style { color: None, bold: false, reversed: false },
                padding: 1,
            },
        ),
{
    law_views_of_drawings(drawings, Seq::empty());
    assert(drawing_views(drawings)[2] == drawings[2]@);
}

/// The node table is drawn at the position that the component holds, and its look is the
/// same in every state but for the colour of its border, which is green exactly while a node
/// has the status Running.
pub proof fn law_table_frame<P, C>(
    s: HomeView<P, C>,
    drawings: Seq<Drawing>,
    layers: Seq<Area>,
    header: Seq<Area>,
    popup: Area,
)
    requires
        drawing_views(drawings) == s.picture(layers, header, popup),
    ensures
        drawings.len() >= 4,
        drawings[3].area == layers[2],
        drawings[3].widget is Table,
        drawings[3].widget->state == s.node_table_state,
        ({
            let border = drawings[3].widget->look.block.border_style;
            let someone_runs = exists|i: int|
                0 <= i < s.node_services.len() && (#[trigger] s.node_services[i]).status
                    == ServiceStatus::Running;
            &&& someone_runs ==> border == (Style {
                color: Some(Color::Green),
                bold: false,
                reversed: false,
            })
            &&& !someone_runs ==> border == (Style { color: None, bold: false, reversed: false })
            &&& drawings[3].widget->look == (TableLook {
                header: ("Service", "PeerId", "Status"),
                header_style: Style { color: None, bold: true, reversed: false },
                header_margin: 1,
                widths: (Constraint::Max(15), Constraint::Min(30), Constraint::Max(10)),
                column_spacing: 2,
                highlight_style: Style { color: None, bold: false, reversed: true },
                highlight_symbol: ">",
                block: Block {
                    title: Some("Node list"),
                    border_type: BorderType::Plain,
                    border_style: border,
                    padding: 0,
                },
            })
        }),
{
    law_views_of_drawings(drawings, Seq::empty());
    assert(drawing_views(drawings)[3] == drawings[3]@);
    crate::laws::law_green_while_running(s);
    if exists|i: int|
        0 <= i < s.node_services.len() && (#[trigger] s.node_services[i]).status
            == ServiceStatus::Running {
        let i = choose|i: int|
            0 <= i < s.node_services.len() && (#[trigger] s.node_services[i]).status
                == ServiceStatus::Running;
        assert(s.node_services[i].is_running());
    }
}

/// The table on the screen has one row for each known node, in order, and its cells hold the
/// node's service name, its peer id wherever it has one and a dash wherever it has none,
/// whatever its status, and the word for its status.
pub proof fn law_cells_show_fields<P, C>(
    s: HomeView<P, C>,
    drawings: Seq<Drawing>,
    layers: Seq<Area>,
    header: Seq<Area>,
    popup: Area,
    i: int,
)
    requires
        s.wf(),
        drawing_views(drawings) == s.picture(layers, header, popup),
    ensures
        drawings.len() >= 4,
        drawings[3].widget is Table,
        drawings[3].widget->rows@.len() == s.node_services.len(),
        0 <= i < s.node_services.len() ==> {
            let node = s.node_services[i];
            let row = drawings[3].widget->rows@[i];
            &&& row.service@ == node.service_name@
            &&& node.peer_id is Some ==> row.peer_id@ == node.peer_id->0@
            &&& node.peer_id is None ==> row.peer_id@ == "-"@
            &&& node.status == ServiceStatus::Added ==> row.status@ == "Added"@
            &&& node.status == ServiceStatus::Running ==> row.status@ == "Running"@
            &&& node.status == ServiceStatus::Stopped ==> row.status@ == "Stopped"@
        },
{
    law_views_of_drawings(drawings, Seq::empty());
    assert(drawing_views(drawings)[3] == drawings[3]@);
    law_rows_show_nodes(s);
    let rows = drawings[3].widget->rows@;
    law_views_of_drawings(Seq::empty(), rows);
    if 0 <= i < s.node_services.len() {
        law_words(s.node_services[i].status);
        assert(row_views(rows)[i] == node_rows(s.node_services)[i]);
    }
}

/// One more node at the end of a list is one more row at the end, with the cells of that
/// node, unless the node was removed: then it has no row.
pub proof fn law_rows_grow(nodes: Seq<NodeServiceData>, node: NodeServiceData)
    ensures
        node_rows(Seq::empty()).len() == 0,
        node.status == ServiceStatus::Removed ==> node_rows(nodes.push(node)) == node_rows(nodes),
        node.status != ServiceStatus::Removed ==> {
            let more = node_rows(nodes.push(node));
            &&& more.len() == node_rows(nodes).len() + 1
            &&& more.drop_last() == node_rows(nodes)
            &&& more.last().service == node.service_name@
            &&& node.peer_id is Some ==> more.last().peer_id == node.peer_id->0@
            &&& node.peer_id is None ==> more.last().peer_id == "-"@
            &&& more.last().status == node.status.word()
        },
{
    law_present_grows(nodes, node);
    if node.status != ServiceStatus::Removed {
        assert(node_rows(nodes.push(node)).drop_last() =~= node_rows(nodes));
    }
    assert(present(Seq::empty()).len() == 0);
}

/// While the registry is locked, a place on top of all else is wiped and a note put there, in
/// bold double lines.
pub proof fn law_wait_note<P, C>(
    s: HomeView<P, C>,
    drawings: Seq<Drawing>,
    layers: Seq<Area>,
    header: Seq<Area>,
    popup: Area,
)
    requires
        s.lock_registry,
        drawing_views(drawings) == s.picture(layers, header, popup),
    ensures
        drawings.len() == 6,
        drawings[4].widget is Clear,
        drawings[4].area == popup,
        drawings[5].area == popup,
        drawings[5].widget is Paragraph,
        drawings[5].widget->text@ == "Please wait..."@,
        drawings[5].widget->alignment == Alignment::Center,
        drawings[5].widget->block == Some(
            Block {
                title: None,
                border_type: BorderType::Double,
                border_style: Style { color: None, bold: true, reversed: false },
                padding: 0,
            },
        ),
{
    law_views_of_drawings(drawings, Seq::empty());
    assert(drawing_views(drawings)[4] == drawings[4]@);
    assert(drawing_views(drawings)[5] == drawings[5]@);
}

/// What an active home screen draws is its picture on the given area: the area is split into
/// four rows, each across the whole of it, and the first of them into two columns. The program
/// and the user stand in the columns, the status in the second row, the table in the third
/// and the note in the middle of the area.
pub proof fn law_places<P, C>(s: HomeView<P, C>, drawings: Seq<Drawing>, area: Area)
    requires
        s.active,
        s.shown_by(drawing_views(drawings), area),
    ensures
        drawings.len() >= 4,
        exists|layers: Seq<Area>, header: Seq<Area>|
            #![trigger layers.len(), header.len()]
            {
                &&& can_split_into(
                    Direction::Vertical,
                    seq![
                        Constraint::Max(1),
                        Constraint::Min(5),
                        Constraint::Min(3),
                        Constraint::Max(3),
                    ],
                    area,
                    layers,
                )
                &&& can_split_into(
                    Direction::Horizontal,
                    seq![Constraint::Min(40), Constraint::Fill(20)],
                    layers[0],
                    header,
                )
                &&& drawing_views(drawings) == s.picture(layers, header, centered(25, 3, area))
                &&& layers.len() == 4
                &&& forall|i: int|
                    0 <= i < 4 ==> (#[trigger] layers[i]).x == area.x && layers[i].width
                        == area.width
                &&& header.len() == 2
                &&& drawings[0].area == header[0]
                &&& drawings[1].area == header[1]
                &&& drawings[2].area == layers[1]
                &&& drawings[3].area == layers[2]
                &&& header[0].y == layers[0].y == header[1].y
                &&& header[0].height == layers[0].height == header[1].height
            },
        drawings[2].area.x == area.x,
        drawings[2].area.width == area.width,
        drawings[3].area.x == area.x,
        drawings[3].area.width == area.width,
        s.lock_registry ==> drawings.len() == 6 && drawings[4].area == centered(25, 3, area)
            && drawings[5].area == centered(25, 3, area),
{
    law_views_of_drawings(drawings, Seq::empty());
    let views = drawing_views(drawings);
    assert(views[0] == drawings[0]@);
    assert(views[1] == drawings[1]@);
    assert(views[2] == drawings[2]@);
    assert(views[3] == drawings[3]@);
    if s.lock_registry {
        assert(views[4] == drawings[4]@);
        assert(views[5] == drawings[5]@);
    }
    let (layers, header) = choose|layers: Seq<Area>, header: Seq<Area>| #[trigger]
        s.shown_in(views, layers, header, area);
    assert(can_split_into(
        Direction::Vertical,
        seq![Constraint::Max(1), Constraint::Min(5), Constraint::Min(3), Constraint::Max(3)],
        area,
        layers,
    ));
    assert(can_split_into(
        Direction::Horizontal,
        seq![Constraint::Min(40), Constraint::Fill(20)],
        layers[0],
        header,
    ));
}

/// A centred area has the size that was asked for, or that of the whole where that is
/// smaller. On a screen that ends within the coordinates it lies inside of the whole, and the
/// margins on opposite sides differ by one cell at most, the larger one to the right and
/// below.
pub proof fn law_centred_area(width: u16, height: u16, area: Area)
    ensures
        ({
            let middle = centered(width, height, area);
            let left = middle.x - area.x;
            let right = area.x + area.width - (middle.x + middle.width);
            let above = middle.y - area.y;
            let below = area.y + area.height - (middle.y + middle.height);
            &&& width <= area.width ==> middle.width == width
            &&& width > area.width ==> middle.width == area.width
            &&& height <= area.height ==> middle.height == height
            &&& height > area.height ==> middle.height == area.height
            &&& middle.x == u16::MAX || middle.x == area.x + (area.width - middle.width) / 2
            &&& middle.y == u16::MAX || middle.y == area.y + (area.height - middle.height) / 2
            &&& area.x + (area.width - middle.width) / 2 < u16::MAX ==> middle.x < u16::MAX
            &&& area.y + (area.height - middle.height) / 2 < u16::MAX ==> middle.y < u16::MAX
            &&& area.x + area.width <= u16::MAX ==> 0 <= left <= right <= left + 1
            &&& area.y + area.height <= u16::MAX ==> 0 <= above <= below <= above + 1
        }),
{
}

/// Selecting a row selects that row and leaves the scroll offset; selecting none scrolls to
/// the top. Only the last selection counts.
pub proof fn law_last_selection_counts(
    table: TableSelection,
    earlier: Option<usize>,
    index: Option<usize>,
)
    ensures
        table.selecting(index).selected == index,
        index is Some ==> table.selecting(index).offset == table.offset,
        index is None ==> table.selecting(index).offset == 0,
        earlier is Some ==> table.selecting(earlier).selecting(index) == table.selecting(index),
{
}

/// Selecting in the table of a home screen changes the table alone.
pub proof fn law_selecting_keeps_the_rest<P, C>(s: HomeView<P, C>, index: Option<usize>)
    ensures
        s.selecting(index) == (HomeView {
            node_table_state: TableSelection {
                offset: if index is None {
                    0
                } else {
                    s.node_table_state.offset
                },
                selected: index,
            },
            ..s
        }),
{
}

/// Every error says what is missing.
pub proof fn law_error_text(error: HomeError)
    ensures
        error.text() == "Action sender not registered"@,
{
}

} // verus!

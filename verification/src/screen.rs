//! What the home screen puts on the terminal.

use crate::layout::{can_split_into, centered, divides, Area, Constraint, Direction};
use crate::node::{lemma_filter_step, present, running_names, NodeServiceData, ServiceStatus};
use crate::state::HomeView;
use crate::table::TableSelection;
use vstd::prelude::*;

verus! {

/// Where lines of text are put.
#[derive(Clone, Copy, Debug, PartialEq, Eq, Structural)]
pub enum Alignment {
    Left,
    Center,
    Right,
}

/// A colour of the terminal.
#[derive(Clone, Copy, Debug, PartialEq, Eq, Structural)]
pub enum Color {
    Green,
}

/// How characters look.
#[derive(Clone, Copy, Debug, PartialEq, Eq, Structural)]
pub struct Style {
    /// The colour, unless it is the terminal's own.
    pub color: Option<Color>,
    pub bold: bool,
    pub reversed: bool,
}

/// The lines that make up a border.
#[derive(Clone, Copy, Debug, PartialEq, Eq, Structural)]
pub enum BorderType {
    Plain,
    Double,
}

/// A frame around a widget, with borders on all sides.
#[derive(Clone, Copy, Debug, PartialEq, Eq)]
pub struct Block {
    pub title: Option<&'static str>,
    pub border_type: BorderType,
    pub border_style: Style,
    /// Empty cells inside the border, on each side.
    pub padding: u16,
}

/// What is the same for every content of the node table, but for the block's border.
#[derive(Clone, Copy, Debug, PartialEq, Eq)]
pub struct TableLook {
    pub header: (&'static str, &'static str, &'static str),
    pub header_style: Style,
    /// Empty lines under the header.
    pub header_margin: u16,
    pub widths: (Constraint, Constraint, Constraint),
    pub column_spacing: u16,
    /// The look of the selected row.
    pub highlight_style: Style,
    /// Stands in front of the selected row.
    pub highlight_symbol: &'static str,
    pub block: Block,
}

/// A row of the node table.
#[derive(Debug, PartialEq, Eq)]
pub struct NodeRow {
    pub service: String,
    pub peer_id: String,
    pub status: String,
}

/// The texts in a row of the node table.
pub struct NodeRowView {
    pub service: Seq<char>,
    pub peer_id: Seq<char>,
    pub status: Seq<char>,
}

/// Something to draw.
#[derive(Debug, PartialEq, Eq)]
pub enum Widget {
    /// Nothing: wipes the area.
    Clear,
    /// Text.
    Paragraph { text: String, alignment: Alignment, block: Option<Block> },
    /// The node table, with its position.
    Table { rows: Vec<NodeRow>, look: TableLook, state: TableSelection },
}

/// What a widget shows.
pub enum WidgetView {
    Clear,
    Paragraph { text: Seq<char>, alignment: Alignment, block: Option<Block> },
    Table { rows: Seq<NodeRowView>, look: TableLook, state: TableSelection },
}

/// A widget and its place.
#[derive(Debug, PartialEq, Eq)]
pub struct Drawing {
    pub area: Area,
    pub widget: Widget,
}

/// What is shown, and where.
pub struct DrawingView {
    pub area: Area,
    pub widget: WidgetView,
}

impl View for NodeRow {
    type V = NodeRowView;

    open spec fn view(&self) -> NodeRowView {
        NodeRowView { service: self.service@, peer_id: self.peer_id@, status: self.status@ }
    }
}

impl View for Widget {
    type V = WidgetView;

    open spec fn view(&self) -> WidgetView {
        match *self {
            Widget::Clear => WidgetView::Clear,
            Widget::Paragraph { text, alignment, block } => WidgetView::Paragraph {
                text: text@,
                alignment,
                block,
            },
            Widget::Table { rows, look, state } => WidgetView::Table {
                rows: row_views(rows@),
                look,
                state,
            },
        }
    }
}

impl View for Drawing {
    type V = DrawingView;

    open spec fn view(&self) -> DrawingView {
        DrawingView { area: self.area, widget: self.widget@ }
    }
}

/// The texts in rows of the node table.
pub open spec fn row_views(rows: Seq<NodeRow>) -> Seq<NodeRowView> {
    rows.map_values(|r: NodeRow| r@)
}

/// What drawings show, in order: the later ones cover the earlier ones.
pub open spec fn drawing_views(drawings: Seq<Drawing>) -> Seq<DrawingView> {
    drawings.map_values(|d: Drawing| d@)
}

/// The terminal's own look.
pub open spec fn plain() -> Style {
    Style { color: None, bold: false, reversed: false }
}

/// Bold, else the terminal's own look.
pub open spec fn bold() -> Style {
    Style { color: None, bold: true, reversed: false }
}

/// Foreground and background exchanged.
pub open spec fn reversed() -> Style {
    Style { color: None, bold: false, reversed: true }
}

/// Green, else the terminal's own look.
pub open spec fn green() -> Style {
    Style { color: Some(Color::Green), bold: false, reversed: false }
}

/// The row that shows `node`: a dash stands for a peer id that is not known.
pub open spec fn node_row(node: NodeServiceData) -> NodeRowView {
    NodeRowView {
        service: node.service_name@,
        peer_id: match node.peer_id {
            Some(id) => id@,
            None => "-"@,
        },
        status: node.status.word(),
    }
}

/// The rows that show `nodes`: removed ones have none.
pub open spec fn node_rows(nodes: Seq<NodeServiceData>) -> Seq<NodeRowView> {
    present(nodes).map_values(|n: NodeServiceData| node_row(n))
}

/// The rows of the screen: header, device status, node table and footer.
pub open spec fn layer_constraints() -> Seq<Constraint> {
    seq![Constraint::Max(1), Constraint::Min(5), Constraint::Min(3), Constraint::Max(3)]
}

/// The columns of the header: the name of the program and its user.
pub open spec fn header_constraints() -> Seq<Constraint> {
    seq![Constraint::Min(40), Constraint::Fill(20)]
}

/// The frame of the device status.
pub open spec fn status_block() -> Block {
    Block {
        title: Some("Device Status"),
        border_type: BorderType::Plain,
        border_style: plain(),
        padding: 1,
    }
}

/// The frame of the note that work is going on.
pub open spec fn wait_block() -> Block {
    Block { title: None, border_type: BorderType::Double, border_style: bold(), padding: 0 }
}

/// The look of the node table, with a border of the given style.
pub open spec fn table_look(border_style: Style) -> TableLook {
    TableLook {
        header: ("Service", "PeerId", "Status"),
        header_style: bold(),
        header_margin: 1,
        widths: (Constraint::Max(15), Constraint::Min(30), Constraint::Max(10)),
        column_spacing: 2,
        highlight_style: reversed(),
        highlight_symbol: ">",
        block: Block {
            title: Some("Node list"),
            border_type: BorderType::Plain,
            border_style,
            padding: 0,
        },
    }
}

impl<P, C> HomeView<P, C> {
    /// The line that names the owner, empty where none is known.
    pub open spec fn owner_line(self) -> Seq<char> {
        if self.discord_username.len() == 0 {
            Seq::empty()
        } else {
            "Discord Username: "@ + self.discord_username
        }
    }

    /// The text under "Device Status".
    pub open spec fn status_text(self) -> Seq<char> {
        if self.node_services.len() == 0 {
            "No nodes detected.\nUse the Manage nodes command to begin."@
        } else {
            "todo: display a table"@
        }
    }

    /// The border of the node table: green while a node runs.
    pub open spec fn table_border(self) -> Style {
        if running_names(self.node_services).len() > 0 {
            green()
        } else {
            plain()
        }
    }

    /// What the component shows while it is active. `layers` are the rows of the screen
    /// and `header` the columns of its first row; the note that work is going on comes
    /// last, in `popup`, while the registry is locked.
    pub open spec fn picture(self, layers: Seq<Area>, header: Seq<Area>, popup: Area) -> Seq<
        DrawingView,
    > {
        let always = seq![
            DrawingView {
                area: header[0],
                widget: WidgetView::Paragraph {
                    text: "Autonomi Node Launchpad"@,
                    alignment: Alignment::Left,
                    block: None,
                },
            },
            DrawingView {
                area: header[1],
                widget: WidgetView::Paragraph {
                    text: self.owner_line(),
                    alignment: Alignment::Right,
                    block: None,
                },
            },
            DrawingView {
                area: layers[1],
                widget: WidgetView::Paragraph {
                    text: self.status_text(),
                    alignment: Alignment::Left,
                    block: Some(status_block()),
                },
            },
            DrawingView {
                area: layers[2],
                widget: WidgetView::Table {
                    rows: node_rows(self.node_services),
                    look: table_look(self.table_border()),
                    state: self.node_table_state,
                },
            },
        ];
        let note = seq![
            DrawingView { area: popup, widget: WidgetView::Clear },
            DrawingView {
                area: popup,
                widget: WidgetView::Paragraph {
                    text: "Please wait..."@,
                    alignment: Alignment::Center,
                    block: Some(wait_block()),
                },
            },
        ];
        if self.lock_registry {
            always + note
        } else {
            always
        }
    }

    /// `drawings` show this state on `area`: nothing while the component is not active,
    /// else its picture, on four rows of the area, the first of them in two columns, with
    /// the note in the middle.
    pub open spec fn shown_by(self, drawings: Seq<DrawingView>, area: Area) -> bool {
        if self.active {
            exists|layers: Seq<Area>, header: Seq<Area>| #[trigger]
                self.shown_in(drawings, layers, header, area)
        } else {
            drawings.len() == 0
        }
    }

    /// `drawings` show this state, active, on `area` divided into `layers` and `header`.
    pub open spec fn shown_in(
        self,
        drawings: Seq<DrawingView>,
        layers: Seq<Area>,
        header: Seq<Area>,
        area: Area,
    ) -> bool {
        &&& divides(Direction::Vertical, 4, layers, area)
        &&& can_split_into(Direction::Vertical, layer_constraints(), area, layers)
        &&& divides(Direction::Horizontal, 2, header, layers[0])
        &&& can_split_into(Direction::Horizontal, header_constraints(), layers[0], header)
        &&& drawings == self.picture(layers, header, centered(25, 3, area))
    }
}

/// The rows that show `nodes`: removed ones have none.
pub fn rows_of(nodes: &Vec<NodeServiceData>) -> (res: Vec<NodeRow>)
    ensures
        row_views(res@) == node_rows(nodes@),
{
    let ghost keep = |n: NodeServiceData| n.is_present();
    let ghost row = |n: NodeServiceData| node_row(n);
    let mut rows: Vec<NodeRow> = Vec::new();
    let mut i: usize = 0;
    proof {
        reveal(Seq::filter);
        assert(row_views(rows@) =~= nodes@.take(0).filter(keep).map_values(row));
    }
    while i < nodes.len()
        invariant
            i <= nodes.len(),
            keep == (|n: NodeServiceData| n.is_present()),
            row == (|n: NodeServiceData| node_row(n)),
            row_views(rows@) == nodes@.take(i as int).filter(keep).map_values(row),
        decreases nodes.len() - i,
    {
        let ghost before = rows@;
        proof {
            lemma_filter_step(nodes@, i as int, keep);
        }
        let node = &nodes[i];
        if node.status != ServiceStatus::Removed {
            let peer_id = match &node.peer_id {
                Some(id) => id.clone(),
                None => "-".to_string(),
            };
            rows.push(
                NodeRow { service: node.service_name.clone(), peer_id, status: node.status.label() },
            );
            proof {
                let done = nodes@.take(i as int).filter(keep);
                assert(row_views(rows@) =~= row_views(before).push(node_row(nodes@[i as int])));
                assert(done.push(nodes@[i as int]).map_values(row) =~= done.map_values(row).push(
                    node_row(nodes@[i as int]),
                ));
            }
        }
        i += 1;
    }
    assert(nodes@.take(nodes@.len() as int) =~= nodes@);
    rows
}

/// Text in the terminal's own look.
pub fn paragraph(area: Area, text: String, alignment: Alignment, block: Option<Block>) -> (res:
    Drawing)
    ensures
        res@ == (DrawingView {
            area,
            widget: WidgetView::Paragraph { text: text@, alignment, block },
        }),
{
    Drawing { area, widget: Widget::Paragraph { text, alignment, block } }
}

/// The frame of the device status.
pub fn device_status_block() -> (res: Block)
    ensures
        res == status_block(),
{
    Block {
        title: Some("Device Status"),
        border_type: BorderType::Plain,
        border_style: Style { color: None, bold: false, reversed: false },
        padding: 1,
    }
}

/// The node table in its frame, whose border is green if `lively`.
pub fn node_table(area: Area, nodes: &Vec<NodeServiceData>, lively: bool, state: TableSelection) -> (
res: Drawing)
    ensures
        res@ == (DrawingView {
            area,
            widget: WidgetView::Table {
                rows: node_rows(nodes@),
                look: table_look(
                    if lively {
                        green()
                    } else {
                        plain()
                    },
                ),
                state,
            },
        }),
{
    let border_style = if lively {
        Style { color: Some(Color::Green), bold: false, reversed: false }
    } else {
        Style { color: None, bold: false, reversed: false }
    };
    let look = TableLook {
        header: ("Service", "PeerId", "Status"),
        header_style: Style { color: None, bold: true, reversed: false },
        header_margin: 1,
        widths: (Constraint::Max(15), Constraint::Min(30), Constraint::Max(10)),
        column_spacing: 2,
        highlight_style: Style { color: None, bold: false, reversed: true },
        highlight_symbol: ">",
        block: Block {
            title: Some("Node list"),
            border_type: BorderType::Plain,
            border_style,
            padding: 0,
        },
    };
    Drawing { area, widget: Widget::Table { rows: rows_of(nodes), look, state } }
}

/// The note that work is going on.
pub fn wait_note(area: Area) -> (res: Drawing)
    ensures
        res@ == (DrawingView {
            area,
            widget: WidgetView::Paragraph {
                text: "Please wait..."@,
                alignment: Alignment::Center,
                block: Some(wait_block()),
            },
        }),
{
    let block = Block {
        title: None,
        border_type: BorderType::Double,
        border_style: Style { color: None, bold: true, reversed: false },
        padding: 0,
    };
    paragraph(area, "Please wait...".to_string(), Alignment::Center, Some(block))
}

} // verus!

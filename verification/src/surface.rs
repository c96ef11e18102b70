//! The display renderer: nodes are drawn, in order, into the cell buffer
//! that the display backend later flushes to the device.
//!
//! Drawing itself is `ratatui`'s; this module decides what is drawn, in
//! which order, and what is left out.

use crate::area::ScreenArea;
use crate::widget::{
    all_legible, are_legible, node_views, printable, span_views, spans_printable, Alignment,
    Color, NodeView, Panel, PanelView, Span, SpanView, Widget, WidgetNode, WidgetView,
};
use ratatui::buffer::Buffer;
use ratatui::layout::{Alignment as Align, Rect};
use ratatui::style::{Color as Ink, Modifier, Style};
use ratatui::text::{Line, Span as Run};
use ratatui::widgets::{Block, Paragraph, Widget as _, Wrap};
use vstd::prelude::*;

verus! {

/// The cell buffer of `ratatui`.
#[verifier::external_type_specification]
#[verifier::external_body]
pub struct ExBuffer(ratatui::buffer::Buffer);

/// The region of the screen that a buffer stands for.
pub uninterp spec fn surface_area(buf: Buffer) -> ScreenArea;

/// The cells of a buffer, row by row, each cell given by the text that its
/// `Debug` form prints: symbol, colours, modifiers and all.
pub uninterp spec fn surface_cells(buf: Buffer) -> Seq<Seq<char>>;

/// The cells after `ratatui` has drawn a line of spans over `area`.
pub uninterp spec fn line_painted(
    cells: Seq<Seq<char>>,
    surface: ScreenArea,
    area: ScreenArea,
    spans: Seq<SpanView>,
    alignment: Alignment,
) -> Seq<Seq<char>>;

/// The cells after `ratatui` has drawn a panel over `area`.
pub uninterp spec fn panel_painted(
    cells: Seq<Seq<char>>,
    surface: ScreenArea,
    area: ScreenArea,
    panel: PanelView,
) -> Seq<Seq<char>>;

/// A region that a buffer can stand for: it lies inside the coordinate
/// space and stops short of its last column, so that the column after any
/// cell of the region is still a coordinate.
pub open spec fn drawable(area: ScreenArea) -> bool {
    area.wf() && area.right() < u16::MAX
}

/// A buffer that can be drawn into: its region is drawable and it holds
/// one cell for each position of the region.
pub open spec fn consistent(buf: Buffer) -> bool {
    &&& drawable(surface_area(buf))
    &&& surface_cells(buf).len() == surface_area(buf).width * surface_area(buf).height
}

/// The fields `area` and `content` of a `ratatui` buffer: the region, and
/// how many cells it holds.
#[verifier::external_body]
fn extent(buf: &Buffer) -> (e: (ScreenArea, usize))
    ensures
        e.0 == surface_area(*buf),
        e.1 == surface_cells(*buf).len(),
{
    let a = buf.area;
    (ScreenArea { x: a.x, y: a.y, width: a.width, height: a.height }, buf.content.len())
}

/// `ratatui`'s `Widget::render` of a `Line`: the spans are drawn into the
/// first row of the part of `area` that lies in the buffer. The buffer
/// keeps its region and its number of cells; what the cells hold afterwards
/// depends on nothing but the cells before, the two regions, the spans and
/// the alignment. The call steps one column past the cell it has written,
/// which is why the buffer may not reach the last column. A line wider
/// than its region is cut at its start where it is centred or aligned to
/// the right, and the cut checks that the width of what is kept is the sum
/// of the widths of its characters, which is why the spans are to be made
/// of characters that are one cell wide wherever they stand.
#[verifier::external_body]
fn paint_line(buf: &mut Buffer, area: ScreenArea, spans: &Vec<Span>, alignment: Alignment)
    requires
        consistent(*old(buf)),
        spans_printable(span_views(spans@)),
    ensures
        surface_area(*final(buf)) == surface_area(*old(buf)),
        surface_cells(*final(buf)).len() == surface_cells(*old(buf)).len(),
        surface_cells(*final(buf)) == line_painted(
            surface_cells(*old(buf)),
            surface_area(*old(buf)),
            area,
            span_views(spans@),
            alignment,
        ),
{
    let weight = |bold| if bold { Modifier::BOLD } else { Modifier::empty() };
    let runs = spans.iter().map(|s| Run::styled(s.text, weight(s.bold)));
    let alignment = match alignment {
        Alignment::Left => Align::Left,
        Alignment::Center => Align::Center,
        Alignment::Right => Align::Right,
    };
    let line = Line::from_iter(runs).alignment(alignment);
    line.render(Rect::new(area.x, area.y, area.width, area.height), buf);
}

/// `ratatui`'s `Widget::render` of a `Paragraph` in a bordered `Block`: the
/// border, the title and the wrapped text are drawn into the part of `area`
/// that lies in the buffer. The buffer keeps its region and its number of
/// cells; what the cells hold afterwards depends on nothing but the cells
/// before, the two regions and the panel. The call places the wrapped text
/// by the widths of its characters and can step out of the buffer after a
/// character wider than two cells, which is why the text is to be made of
/// characters one cell wide.
#[verifier::external_body]
fn paint_panel(buf: &mut Buffer, area: ScreenArea, panel: &Panel, text: &str)
    requires
        consistent(*old(buf)),
        printable(panel.text@),
        text@ == panel.text@,
    ensures
        surface_area(*final(buf)) == surface_area(*old(buf)),
        surface_cells(*final(buf)).len() == surface_cells(*old(buf)).len(),
        surface_cells(*final(buf)) == panel_painted(
            surface_cells(*old(buf)),
            surface_area(*old(buf)),
            area,
            panel@,
        ),
{
    let fg = |c| match c {
        None => Style::new(),
        Some(Color::DarkGray) => Ink::DarkGray.into(),
        Some(Color::Yellow) => Ink::Yellow.into(),
    };
    let alignment = match panel.alignment {
        Alignment::Left => Align::Left,
        Alignment::Center => Align::Center,
        Alignment::Right => Align::Right,
    };
    let block = Block::bordered().border_style(fg(panel.border_color)).title(panel.title);
    let body = Paragraph::new(Run::styled(text, fg(panel.text_color))).style(fg(panel.color));
    let body = body.alignment(alignment).wrap(Wrap { trim: panel.trim }).block(block);
    body.render(Rect::new(area.x, area.y, area.width, area.height), buf);
}

/// The cells after one node has been drawn: a node whose region holds no
/// cell leaves them as they are.
pub open spec fn painted(cells: Seq<Seq<char>>, surface: ScreenArea, node: NodeView) -> Seq<
    Seq<char>,
> {
    if node.area.degenerate() {
        cells
    } else {
        match node.widget {
            WidgetView::Line { spans, alignment } => line_painted(
                cells,
                surface,
                node.area,
                spans,
                alignment,
            ),
            WidgetView::Panel(panel) => panel_painted(cells, surface, node.area, panel),
        }
    }
}

/// The cells after a sequence of nodes has been drawn, the first node
/// first: where two nodes meet, the later one is on top.
pub open spec fn painted_all(cells: Seq<Seq<char>>, surface: ScreenArea, nodes: Seq<NodeView>) -> Seq<
    Seq<char>,
>
    decreases nodes.len(),
{
    if nodes.len() == 0 {
        cells
    } else {
        painted(painted_all(cells, surface, nodes.drop_last()), surface, nodes.last())
    }
}

/// Why a frame could not be drawn.
#[derive(Clone, Copy, Debug, PartialEq, Eq, Structural)]
pub enum SurfaceFault {
    /// The buffer's region passes the end of the coordinate space or
    /// reaches its last column.
    RegionOutOfRange,
    /// The buffer does not hold one cell for each position of its region.
    CellCountMismatch,
    /// The text of a panel or a span of a line holds a character that is
    /// not printable.
    IllegibleText,
}

/// Draws one node into the buffer, unless its region holds no cell.
pub fn render_node(node: &WidgetNode, buf: &mut Buffer)
    requires
        consistent(*old(buf)),
        node@.legible(),
    ensures
        consistent(*final(buf)),
        surface_area(*final(buf)) == surface_area(*old(buf)),
        surface_cells(*final(buf)) == painted(
            surface_cells(*old(buf)),
            surface_area(*old(buf)),
            node@,
        ),
{
    if node.area.is_empty() {
        return ;
    }
    match &node.widget {
        Widget::Line { spans, alignment } => paint_line(buf, node.area, spans, *alignment),
        Widget::Panel(panel) => paint_panel(buf, node.area, panel, panel.text.as_str()),
    }
}

/// Draws the nodes of one frame into the buffer, in sequence order. Nodes
/// whose region holds no cell are passed over.
pub fn render(nodes: &Vec<WidgetNode>, buf: &mut Buffer)
    requires
        consistent(*old(buf)),
        all_legible(node_views(nodes@)),
    ensures
        consistent(*final(buf)),
        surface_area(*final(buf)) == surface_area(*old(buf)),
        surface_cells(*final(buf)) == painted_all(
            surface_cells(*old(buf)),
            surface_area(*old(buf)),
            node_views(nodes@),
        ),
{
    let ghost before = *buf;
    let ghost views = node_views(nodes@);
    let mut i: usize = 0;
    while i < nodes.len()
        invariant
            i <= nodes.len(),
            views == node_views(nodes@),
            all_legible(views),
            consistent(*buf),
            surface_area(*buf) == surface_area(before),
            surface_cells(*buf) == painted_all(
                surface_cells(before),
                surface_area(before),
                views.take(i as int),
            ),
        decreases nodes.len() - i,
    {
        assert(views[i as int] == nodes@[i as int]@);
        render_node(&nodes[i], buf);
        proof {
            assert(views.take(i + 1).drop_last() == views.take(i as int));
            assert(views.take(i + 1).last() == nodes@[i as int]@);
        }
        i += 1;
    }
    proof {
        assert(views.take(nodes.len() as int) == views);
    }
}

/// The region of the screen that a buffer stands for, where the buffer can
/// be drawn into.
pub fn surface_region(buf: &Buffer) -> (region: Result<ScreenArea, SurfaceFault>)
    ensures
        consistent(*buf) <==> region == Ok::<ScreenArea, SurfaceFault>(surface_area(*buf)),
        !drawable(surface_area(*buf)) <==> region == Err::<ScreenArea, SurfaceFault>(
            SurfaceFault::RegionOutOfRange,
        ),
        drawable(surface_area(*buf)) && !consistent(*buf) <==> region == Err::<
            ScreenArea,
            SurfaceFault,
        >(SurfaceFault::CellCountMismatch),
{
    let (area, count) = extent(buf);
    if area.width >= u16::MAX - area.x || area.height > u16::MAX - area.y {
        return Err(SurfaceFault::RegionOutOfRange);
    }
    assert(area.width * area.height <= 0xFFFF * 0xFFFF) by (nonlinear_arith)
        requires
            area.width <= 0xFFFF,
            area.height <= 0xFFFF,
    ;
    let cells: u64 = area.width as u64 * area.height as u64;
    if count as u64 != cells {
        return Err(SurfaceFault::CellCountMismatch);
    }
    Ok(area)
}

/// Checks that the buffer can be drawn into and that every node can be
/// drawn and, if so, draws the nodes of one frame into the buffer. On any
/// fault the buffer is left untouched; a fault of the buffer is named
/// before a fault of a node.
pub fn try_render(nodes: &Vec<WidgetNode>, buf: &mut Buffer) -> (outcome: Result<(), SurfaceFault>)
    ensures
        surface_area(*final(buf)) == surface_area(*old(buf)),
        !drawable(surface_area(*old(buf))) <==> outcome == Err::<(), SurfaceFault>(
            SurfaceFault::RegionOutOfRange,
        ),
        drawable(surface_area(*old(buf))) && !consistent(*old(buf)) <==> outcome == Err::<
            (),
            SurfaceFault,
        >(SurfaceFault::CellCountMismatch),
        consistent(*old(buf)) && !all_legible(node_views(nodes@)) <==> outcome == Err::<
            (),
            SurfaceFault,
        >(SurfaceFault::IllegibleText),
        consistent(*old(buf)) && all_legible(node_views(nodes@)) <==> outcome is Ok,
        outcome is Ok ==> consistent(*final(buf)) && surface_cells(*final(buf)) == painted_all(
            surface_cells(*old(buf)),
            surface_area(*old(buf)),
            node_views(nodes@),
        ),
        outcome is Err ==> surface_cells(*final(buf)) == surface_cells(*old(buf)),
{
    match surface_region(buf) {
        Ok(_) => {
            if are_legible(nodes) {
                render(nodes, buf);
                Ok(())
            } else {
                Err(SurfaceFault::IllegibleText)
            }
        },
        Err(fault) => Err(fault),
    }
}

} // verus!

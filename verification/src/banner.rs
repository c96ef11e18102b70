//! A static screen: one bordered panel of fixed text over the whole display.

use crate::area::ScreenArea;
use crate::sensor::{SensorFault, SensorReading};
use crate::setup::App;
use crate::widget::{
    all_legible, node_views, printable, Alignment, Color, NodeView, Panel, PanelView, Text,
    Widget, WidgetNode, WidgetView,
};
use vstd::prelude::*;

verus! {

/// Application state.
///
/// The static screen has nothing to remember.
#[derive(Clone, Copy, Debug, PartialEq, Eq, Structural)]
pub struct AppState {}

impl Default for AppState {
    fn default() -> (state: AppState)
        ensures
            state == (AppState {  }),
    {
        AppState {  }
    }
}

/// The panel of the static screen: dark gray text, wrapped and aligned to
/// the left, in a yellow border titled `Mousefood`.
pub open spec fn banner_view(area: ScreenArea) -> NodeView {
    NodeView {
        area,
        widget: WidgetView::Panel(
            PanelView {
                title: "Mousefood"@,
                text: "Ratatui on embedded devices!"@,
                alignment: Alignment::Left,
                trim: true,
                color: None,
                text_color: Some(Color::DarkGray),
                border_color: Some(Color::Yellow),
            },
        ),
    }
}

impl App for AppState {
    open spec fn scene(&self, area: ScreenArea) -> Seq<NodeView> {
        seq![banner_view(area)]
    }

    open spec fn has_sensor() -> bool {
        false
    }

    open spec fn refreshed(&self, reading: SensorReading) -> AppState {
        *self
    }

    /// Describes the frame: the one panel, over the whole area.
    fn draw(&self, area: ScreenArea) -> (nodes: Vec<WidgetNode>) {
        let panel = Panel {
            title: "Mousefood",
            text: Text::Fixed("Ratatui on embedded devices!"),
            alignment: Alignment::Left,
            trim: true,
            color: None,
            text_color: Some(Color::DarkGray),
            border_color: Some(Color::Yellow),
        };
        let nodes = vec![WidgetNode { area, widget: Widget::Panel(panel) }];
        assert(node_views(nodes@) =~= seq![banner_view(area)]);
        nodes
    }

    fn polls_sensor(&self) -> (polls: bool) {
        false
    }

    /// There is no sensor: a reading changes nothing, and a fault is handed
    /// back as it came.
    fn read_sensor(&mut self, sample: Result<SensorReading, SensorFault>) -> (outcome: Result<
        (),
        SensorFault,
    >) {
        match sample {
            Ok(_) => Ok(()),
            Err(fault) => Err(fault),
        }
    }
}

/// The frame of the static screen can be drawn, whatever the area: its
/// text is made of printable characters alone.
pub proof fn lemma_banner_is_legible(state: AppState, area: ScreenArea)
    ensures
        all_legible(state.scene(area)),
{
    reveal_strlit("Ratatui on embedded devices!");
    assert(printable("Ratatui on embedded devices!"@));
}

} // verus!

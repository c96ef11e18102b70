//! The sensor dashboard: a title line, and below it the temperature and the
//! humidity last read, each in a bordered panel.

use crate::area::{lemma_regions_fit_and_are_disjoint, ScreenArea};
use crate::sensor::{SensorFault, SensorReading};
use crate::setup::{App, RenderLoop};
use crate::text::{decimal, digit_char, format_value, lemma_decimal_u8, value_text, Unit};
use crate::widget::{
    all_legible, node_views, printable, printable_char, Alignment, Color, NodeView, Panel,
    PanelView, Span, SpanView, Text, Widget, WidgetNode, WidgetView,
};
use vstd::prelude::*;

verus! {

/// Application state.
///
/// The values last read from the sensor; both are zero until the first
/// reading has come in.
#[derive(Clone, Copy, Debug, PartialEq, Eq, Structural)]
pub struct CheeseTestState {
    pub temperature: u8,
    pub humidity: u8,
}

impl Default for CheeseTestState {
    fn default() -> (state: CheeseTestState)
        ensures
            state == (CheeseTestState { temperature: 0, humidity: 0 }),
    {
        CheeseTestState { temperature: 0, humidity: 0 }
    }
}

/// Starts the render loop of the dashboard: the state at its default, the
/// loop waiting, the first interval counted from the clock reading `now`.
pub fn run(now: u64) -> (render_loop: RenderLoop<CheeseTestState>)
    ensures
        render_loop == RenderLoop::started(
            CheeseTestState { temperature: 0, humidity: 0 },
            crate::setup::DEFAULT_INTERVAL,
            now,
        ),
{
    CheeseTestState::default().run(now)
}

/// The title node: `Stateless` in bold, then `Cheese`, centred on one line.
pub open spec fn title_view(area: ScreenArea) -> NodeView {
    NodeView {
        area,
        widget: WidgetView::Line {
            spans: seq![
                SpanView { text: "Stateless"@, bold: true },
                SpanView { text: "Cheese"@, bold: false },
            ],
            alignment: Alignment::Center,
        },
    }
}

/// A value panel: the value with its unit, centred and wrapped, dark gray,
/// in a border with the given title.
pub open spec fn value_view(area: ScreenArea, title: Seq<char>, value: u8, unit: Unit) -> NodeView {
    NodeView {
        area,
        widget: WidgetView::Panel(
            PanelView {
                title,
                text: value_text(value, unit),
                alignment: Alignment::Center,
                trim: true,
                color: Some(Color::DarkGray),
                text_color: None,
                border_color: None,
            },
        ),
    }
}

/// The temperature panel.
pub open spec fn temperature_view(area: ScreenArea, temperature: u8) -> NodeView {
    value_view(area, "Temperature"@, temperature, Unit::Celsius)
}

/// The humidity panel.
pub open spec fn humidity_view(area: ScreenArea, humidity: u8) -> NodeView {
    value_view(area, "Humidity"@, humidity, Unit::Percent)
}

/// The frame of the dashboard: the title in the title strip of the area,
/// the temperature in the left column of its body, the humidity in the
/// right column.
pub open spec fn dashboard(state: CheeseTestState, area: ScreenArea) -> Seq<NodeView> {
    seq![
        title_view(area.title_strip()),
        temperature_view(area.body().left_column(), state.temperature),
        humidity_view(area.body().right_column(), state.humidity),
    ]
}

/// Describes the title line for a region.
pub fn title_widget(area: ScreenArea) -> (node: WidgetNode)
    ensures
        node@ == title_view(area),
{
    let spans = vec![Span { text: "Stateless", bold: true }, Span { text: "Cheese", bold: false }];
    let node = WidgetNode { area, widget: Widget::Line { spans, alignment: Alignment::Center } };
    assert(node@.widget->Line_spans =~= title_view(area).widget->Line_spans);
    node
}

/// Describes a value panel for a region.
fn value_widget(area: ScreenArea, title: &'static str, value: u8, unit: Unit) -> (node: WidgetNode)
    ensures
        node@ == value_view(area, title@, value, unit),
{
    WidgetNode {
        area,
        widget: Widget::Panel(
            Panel {
                title,
                text: Text::Value(format_value(value, unit)),
                alignment: Alignment::Center,
                trim: true,
                color: Some(Color::DarkGray),
                text_color: None,
                border_color: None,
            },
        ),
    }
}

/// Describes the temperature panel for a region.
pub fn temperature_widget(area: ScreenArea, temperature: u8) -> (node: WidgetNode)
    ensures
        node@ == temperature_view(area, temperature),
{
    value_widget(area, "Temperature", temperature, Unit::Celsius)
}

/// Describes the humidity panel for a region.
pub fn humidity_widget(area: ScreenArea, humidity: u8) -> (node: WidgetNode)
    ensures
        node@ == humidity_view(area, humidity),
{
    value_widget(area, "Humidity", humidity, Unit::Percent)
}

impl App for CheeseTestState {
    open spec fn scene(&self, area: ScreenArea) -> Seq<NodeView> {
        dashboard(*self, area)
    }

    open spec fn has_sensor() -> bool {
        true
    }

    open spec fn refreshed(&self, reading: SensorReading) -> CheeseTestState {
        CheeseTestState { temperature: reading.temperature, humidity: reading.humidity }
    }

    /// Describes the frame of the dashboard.
    fn draw(&self, area: ScreenArea) -> (nodes: Vec<WidgetNode>) {
        let (top, main) = area.split_rows();
        let (first, second) = main.split_columns();
        let nodes = vec![
            title_widget(top),
            temperature_widget(first, self.temperature),
            humidity_widget(second, self.humidity),
        ];
        assert(node_views(nodes@) =~= dashboard(*self, area));
        nodes
    }

    fn polls_sensor(&self) -> (polls: bool) {
        true
    }

    /// Takes in the outcome of one poll: a reading replaces both values, a
    /// fault replaces nothing.
    fn read_sensor(&mut self, sample: Result<SensorReading, SensorFault>) -> (outcome: Result<
        (),
        SensorFault,
    >) {
        match sample {
            Ok(reading) => {
                self.humidity = reading.humidity;
                self.temperature = reading.temperature;
                Ok(())
            },
            Err(fault) => Err(fault),
        }
    }
}

/// The dashboard has three nodes, whatever the size of the display: each
/// lies within the display area, and no two of them share a cell.
pub proof fn lemma_dashboard_regions(state: CheeseTestState, area: ScreenArea)
    requires
        area.wf(),
    ensures
        state.scene(area).len() == 3,
        forall|i: int| 0 <= i < 3 ==> (#[trigger] state.scene(area)[i]).area.within(area),
        forall|i: int, j: int|
            0 <= i < j < 3 ==> (#[trigger] state.scene(area)[i]).area.disjoint(
                (#[trigger] state.scene(area)[j]).area,
            ),
{
    lemma_regions_fit_and_are_disjoint(area);
}

/// The text of a value with its unit is made of printable characters
/// alone: digits, the degree sign, `C` and `%`.
pub proof fn lemma_value_text_is_printable(value: u8, unit: Unit)
    ensures
        printable(value_text(value, unit)),
{
    lemma_decimal_u8(value);
    assert(forall|d: nat| d < 10 ==> printable_char(#[trigger] digit_char(d)));
    assert(printable(decimal(value as nat)));
    assert(printable(unit.symbol()));
}

/// Every frame of the dashboard can be drawn, whatever the values and the
/// area: no frame of it is refused for its text.
pub proof fn lemma_dashboard_is_legible(state: CheeseTestState, area: ScreenArea)
    ensures
        all_legible(state.scene(area)),
{
    reveal_strlit("Stateless");
    reveal_strlit("Cheese");
    assert(printable("Stateless"@));
    assert(printable("Cheese"@));
    lemma_value_text_is_printable(state.temperature, Unit::Celsius);
    lemma_value_text_is_printable(state.humidity, Unit::Percent);
}

/// After a reading has been taken in, the state holds exactly the reading,
/// and the next frame shows it: the temperature panel its temperature with
/// the degree sign and `C`, the humidity panel its humidity with `%`.
pub proof fn lemma_reading_is_shown(before: CheeseTestState, reading: SensorReading, area: ScreenArea)
    ensures
        before.refreshed(reading).temperature == reading.temperature,
        before.refreshed(reading).humidity == reading.humidity,
        before.refreshed(reading).scene(area)[1].widget.text() == value_text(
            reading.temperature,
            Unit::Celsius,
        ),
        before.refreshed(reading).scene(area)[2].widget.text() == value_text(
            reading.humidity,
            Unit::Percent,
        ),
{
}

/// The title reads `StatelessCheese`.
pub proof fn lemma_title_reads(area: ScreenArea)
    ensures
        title_view(area).widget.text() == "StatelessCheese"@,
{
    reveal_strlit("Stateless");
    reveal_strlit("Cheese");
    reveal_strlit("StatelessCheese");
    reveal_with_fuel(crate::widget::joined, 3);
    assert(title_view(area).widget.text() =~= "StatelessCheese"@);
}

} // verus!

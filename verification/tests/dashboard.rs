use cheese_test::app::{humidity_widget, run, temperature_widget, title_widget, CheeseTestState};
use cheese_test::area::ScreenArea;
use cheese_test::sensor::SensorReading;
use cheese_test::setup::App;
use cheese_test::surface::render;
use cheese_test::widget::{Alignment, Color, Widget, WidgetNode};
use ratatui::backend::TestBackend;
use ratatui::buffer::Buffer;
use ratatui::layout::{Constraint, Layout, Rect};
use ratatui::style::Stylize;
use ratatui::text::{Line, Span};
use ratatui::widgets::{Block, Paragraph, Wrap};
use ratatui::{Frame, Terminal};

fn dashboard_state(temperature: u8, humidity: u8) -> CheeseTestState {
    let mut state = CheeseTestState::default();
    let outcome = state.read_sensor(Ok(SensorReading { humidity, temperature }));
    assert_eq!(outcome, Ok(()));
    state
}

fn draw_with_ratatui(frame: &mut Frame, temperature: u8, humidity: u8) {
    let vertical = Layout::vertical([Constraint::Length(1), Constraint::Fill(1)]).spacing(1);
    let horizontal = Layout::horizontal([Constraint::Percentage(50); 2]).spacing(1);
    let [top, main] = frame.area().layout(&vertical);
    let [first, second] = main.layout(&horizontal);

    let title = Line::from_iter([Span::from("Stateless").bold(), Span::from("Cheese")]).centered();
    frame.render_widget(title, top);

    let text = format!("{temperature}\u{b0}C");
    let paragraph = Paragraph::new(text.as_str())
        .style(ratatui::style::Color::DarkGray)
        .alignment(ratatui::layout::Alignment::Center)
        .wrap(Wrap { trim: true })
        .block(Block::bordered().title("Temperature"));
    frame.render_widget(paragraph, first);

    let text = format!("{humidity}%");
    let paragraph = Paragraph::new(text.as_str())
        .style(ratatui::style::Color::DarkGray)
        .alignment(ratatui::layout::Alignment::Center)
        .wrap(Wrap { trim: true })
        .block(Block::bordered().title("Humidity"));
    frame.render_widget(paragraph, second);
}

fn screen_drawn_with_ratatui(width: u16, height: u16, temperature: u8, humidity: u8) -> Buffer {
    let mut terminal = Terminal::new(TestBackend::new(width, height)).unwrap();
    terminal.draw(|frame| draw_with_ratatui(frame, temperature, humidity)).unwrap();
    terminal.backend().buffer().clone()
}

fn screen_drawn_by_library(width: u16, height: u16, state: &CheeseTestState) -> Buffer {
    let mut buf = Buffer::empty(Rect::new(0, 0, width, height));
    let nodes = state.draw(ScreenArea::new(0, 0, width, height));
    render(&nodes, &mut buf);
    buf
}

fn row_text(buf: &Buffer, y: u16) -> String {
    let mut row = String::new();
    for x in 0..buf.area.width {
        row.push_str(buf[(x, y)].symbol());
    }
    row
}

fn panel_of(node: &WidgetNode) -> &cheese_test::widget::Panel {
    match &node.widget {
        Widget::Panel(panel) => panel,
        Widget::Line { .. } => panic!("a panel was expected"),
    }
}

#[test]
fn draw_describes_title_and_two_value_panels() {
    let state = dashboard_state(23, 55);
    let nodes = state.draw(ScreenArea::new(0, 0, 128, 64));
    assert_eq!(nodes.len(), 3);

    assert_eq!(nodes[0].area, ScreenArea { x: 0, y: 0, width: 128, height: 1 });
    match &nodes[0].widget {
        Widget::Line { spans, alignment } => {
            assert_eq!(*alignment, Alignment::Center);
            assert_eq!(spans.len(), 2);
            assert_eq!(spans[0].text, "Stateless");
            assert!(spans[0].bold);
            assert_eq!(spans[1].text, "Cheese");
            assert!(!spans[1].bold);
            let joined: String = spans.iter().map(|s| s.text).collect();
            assert_eq!(joined, "StatelessCheese");
        }
        Widget::Panel(_) => panic!("the title is a line"),
    }

    assert_eq!(nodes[1].area, ScreenArea { x: 0, y: 2, width: 64, height: 62 });
    let temperature = panel_of(&nodes[1]);
    assert_eq!(temperature.title, "Temperature");
    assert_eq!(temperature.text.as_str(), "23\u{b0}C");
    assert_eq!(temperature.alignment, Alignment::Center);
    assert!(temperature.trim);
    assert_eq!(temperature.color, Some(Color::DarkGray));
    assert_eq!(temperature.text_color, None);
    assert_eq!(temperature.border_color, None);

    assert_eq!(nodes[2].area, ScreenArea { x: 65, y: 2, width: 63, height: 62 });
    let humidity = panel_of(&nodes[2]);
    assert_eq!(humidity.title, "Humidity");
    assert_eq!(humidity.text.as_str(), "55%");
    assert_eq!(humidity.alignment, Alignment::Center);
    assert!(humidity.trim);
    assert_eq!(humidity.color, Some(Color::DarkGray));
}

#[test]
fn dashboard_shows_title_borders_and_values_on_screen() {
    let buf = screen_drawn_by_library(128, 64, &dashboard_state(23, 55));

    let title_row = row_text(&buf, 0);
    assert_eq!(title_row.trim(), "StatelessCheese");
    assert_eq!(title_row.find("StatelessCheese"), Some(56));
    assert!(buf[(56, 0)].modifier.contains(ratatui::style::Modifier::BOLD));
    assert!(!buf[(65, 0)].modifier.contains(ratatui::style::Modifier::BOLD));
    assert_eq!(row_text(&buf, 1).trim(), "");

    let top_border: Vec<char> = row_text(&buf, 2).chars().collect();
    let left_border: String = top_border[0..64].iter().collect();
    let right_border: String = top_border[65..128].iter().collect();
    assert!(left_border.starts_with("\u{250c}Temperature\u{2500}"));
    assert!(left_border.ends_with("\u{2500}\u{2510}"));
    assert_eq!(top_border[64], ' ');
    assert!(right_border.starts_with("\u{250c}Humidity\u{2500}"));
    assert!(right_border.ends_with("\u{2500}\u{2510}"));

    let value_row: Vec<char> = row_text(&buf, 3).chars().collect();
    let left_value: String = value_row[1..63].iter().collect();
    let right_value: String = value_row[66..127].iter().collect();
    assert_eq!(left_value.trim(), "23\u{b0}C");
    assert_eq!(right_value.trim(), "55%");
    assert_eq!(left_value.find("23"), Some(29));
    assert_eq!(right_value.find("55"), Some(29));
    assert_eq!(buf[(30, 3)].fg, ratatui::style::Color::DarkGray);

    let bottom: Vec<char> = row_text(&buf, 63).chars().collect();
    assert_eq!(bottom[0], '\u{2514}');
    assert_eq!(bottom[63], '\u{2518}');
    assert_eq!(bottom[65], '\u{2514}');
    assert_eq!(bottom[127], '\u{2518}');
}

#[test]
fn dashboard_is_drawn_as_ratatui_draws_its_widgets() {
    for (temperature, humidity) in [(23, 55), (0, 0), (255, 255), (9, 100), (100, 9)] {
        let state = dashboard_state(temperature, humidity);
        assert_eq!(
            screen_drawn_by_library(128, 64, &state),
            screen_drawn_with_ratatui(128, 64, temperature, humidity)
        );
    }
}

#[test]
fn dashboard_is_drawn_as_ratatui_draws_it_on_small_screens() {
    let state = dashboard_state(23, 55);
    for (width, height) in [(0, 0), (1, 1), (2, 2), (3, 3), (8, 4), (16, 2), (21, 8), (40, 12), (5, 64)] {
        assert_eq!(
            screen_drawn_by_library(width, height, &state),
            screen_drawn_with_ratatui(width, height, 23, 55)
        );
    }
}

#[test]
fn draw_gives_the_same_nodes_for_the_same_state_and_area() {
    let state = dashboard_state(23, 55);
    let area = ScreenArea::new(0, 0, 128, 64);
    let first = state.draw(area);
    let second = state.draw(area);
    assert_eq!(first, second);
    let twin = dashboard_state(23, 55);
    assert_eq!(first, twin.draw(area));
    assert_ne!(first, dashboard_state(24, 55).draw(area));
    assert_ne!(first, state.draw(ScreenArea::new(0, 0, 128, 32)));
}

#[test]
fn dashboard_regions_fit_the_area_and_do_not_overlap() {
    let state = CheeseTestState::default();
    for (x, y, width, height) in [(0, 0, 128, 64), (4, 7, 127, 33), (0, 0, 3, 3), (0, 0, 0, 0), (9, 9, 1, 1)] {
        let area = ScreenArea::new(x, y, width, height);
        let nodes = state.draw(area);
        assert_eq!(nodes.len(), 3);
        for node in &nodes {
            assert!(node.area.x >= area.x && node.area.y >= area.y);
            assert!(node.area.x + node.area.width <= area.x + area.width);
            assert!(node.area.y + node.area.height <= area.y + area.height);
        }
        for i in 0..3 {
            for j in (i + 1)..3 {
                let (a, b) = (nodes[i].area, nodes[j].area);
                let apart = a.x + a.width <= b.x
                    || b.x + b.width <= a.x
                    || a.y + a.height <= b.y
                    || b.y + b.height <= a.y
                    || a.is_empty()
                    || b.is_empty();
                assert!(apart);
            }
        }
    }
}

#[test]
fn regions_of_a_128_by_64_display() {
    let area = ScreenArea::new(0, 0, 128, 64);
    let (top, main) = area.split_rows();
    assert_eq!(top, ScreenArea { x: 0, y: 0, width: 128, height: 1 });
    assert_eq!(main, ScreenArea { x: 0, y: 2, width: 128, height: 62 });
    let (first, second) = main.split_columns();
    assert_eq!(first, ScreenArea { x: 0, y: 2, width: 64, height: 62 });
    assert_eq!(second, ScreenArea { x: 65, y: 2, width: 63, height: 62 });
}

#[test]
fn regions_of_an_odd_width() {
    let (first, second) = ScreenArea::new(10, 0, 127, 5).split_columns();
    assert_eq!(first, ScreenArea { x: 10, y: 0, width: 63, height: 5 });
    assert_eq!(second, ScreenArea { x: 74, y: 0, width: 63, height: 5 });
}

#[test]
fn regions_of_areas_without_room() {
    let (top, main) = ScreenArea::new(0, 0, 10, 0).split_rows();
    assert_eq!(top, ScreenArea { x: 0, y: 0, width: 10, height: 0 });
    assert_eq!(main, ScreenArea { x: 0, y: 0, width: 10, height: 0 });
    let (top, main) = ScreenArea::new(0, 0, 10, 1).split_rows();
    assert_eq!(top, ScreenArea { x: 0, y: 0, width: 10, height: 0 });
    assert_eq!(main, ScreenArea { x: 0, y: 1, width: 10, height: 0 });
    let (top, main) = ScreenArea::new(0, 0, 10, 2).split_rows();
    assert_eq!(top, ScreenArea { x: 0, y: 0, width: 10, height: 1 });
    assert_eq!(main, ScreenArea { x: 0, y: 2, width: 10, height: 0 });
    let (first, second) = ScreenArea::new(0, 0, 1, 4).split_columns();
    assert_eq!(first, ScreenArea { x: 0, y: 0, width: 0, height: 4 });
    assert_eq!(second, ScreenArea { x: 1, y: 0, width: 0, height: 4 });
    let (first, second) = ScreenArea::new(0, 0, 2, 4).split_columns();
    assert_eq!(first, ScreenArea { x: 0, y: 0, width: 1, height: 4 });
    assert_eq!(second, ScreenArea { x: 2, y: 0, width: 0, height: 4 });
}

#[test]
fn degenerate_regions_still_give_nodes() {
    let nodes = CheeseTestState::default().draw(ScreenArea::new(0, 0, 0, 0));
    assert_eq!(nodes.len(), 3);
    assert!(nodes.iter().all(|node| node.area.is_empty()));
}

#[test]
fn new_area_is_cut_off_at_the_end_of_the_coordinate_space() {
    assert_eq!(ScreenArea::new(1, 2, 3, 4), ScreenArea { x: 1, y: 2, width: 3, height: 4 });
    assert_eq!(
        ScreenArea::new(65530, 65535, 10, 10),
        ScreenArea { x: 65530, y: 65535, width: 5, height: 0 }
    );
    let rect = Rect::new(65530, 65535, 10, 10);
    assert_eq!((rect.width, rect.height), (5, 0));
}

#[test]
fn widgets_carry_their_region() {
    let area = ScreenArea::new(3, 4, 20, 5);
    assert_eq!(title_widget(area).area, area);
    assert_eq!(temperature_widget(area, 7).area, area);
    assert_eq!(humidity_widget(area, 7).area, area);
    assert_eq!(panel_of(&temperature_widget(area, 7)).text.as_str(), "7\u{b0}C");
    assert_eq!(panel_of(&humidity_widget(area, 7)).text.as_str(), "7%");
}

#[test]
fn run_starts_with_default_state() {
    let render_loop = run(42);
    assert_eq!(render_loop.app, CheeseTestState { temperature: 0, humidity: 0 });
    assert_eq!(render_loop.interval, 500);
    assert_eq!(render_loop.since, 42);
    assert_eq!(render_loop.phase, cheese_test::setup::Phase::Waiting);
}

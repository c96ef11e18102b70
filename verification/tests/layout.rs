use cheese_test::area::ScreenArea;
use ratatui::layout::{Constraint, Layout, Rect};

fn rect_of(area: ScreenArea) -> Rect {
    Rect { x: area.x, y: area.y, width: area.width, height: area.height }
}

fn assert_split_agrees(area: ScreenArea) {
    let vertical = Layout::vertical([Constraint::Length(1), Constraint::Fill(1)]).spacing(1);
    let horizontal = Layout::horizontal([Constraint::Percentage(50); 2]).spacing(1);
    let (top, main) = area.split_rows();
    let (first, second) = main.split_columns();
    let rows = vertical.split(rect_of(area));
    let columns = horizontal.split(rows[1]);
    assert_eq!(rows.len(), 2);
    assert_eq!(columns.len(), 2);
    assert_eq!(rows[0], rect_of(top));
    assert_eq!(rows[1], rect_of(main));
    assert_eq!(columns[0], rect_of(first));
    assert_eq!(columns[1], rect_of(second));
}

#[test]
fn split_agrees_with_ratatui_layout_on_small_areas() {
    for width in 0u16..=40 {
        for height in 0u16..=12 {
            assert_split_agrees(ScreenArea::new(0, 0, width, height));
            assert_split_agrees(ScreenArea::new(3, 5, width, height));
        }
    }
}

#[test]
fn split_agrees_with_ratatui_layout_on_common_displays() {
    assert_split_agrees(ScreenArea::new(0, 0, 128, 64));
    assert_split_agrees(ScreenArea::new(0, 0, 128, 32));
    assert_split_agrees(ScreenArea::new(0, 0, 80, 24));
    assert_split_agrees(ScreenArea::new(0, 0, 127, 63));
    assert_split_agrees(ScreenArea::new(10, 20, 255, 100));
}

#[test]
fn split_agrees_with_ratatui_layout_at_the_end_of_the_coordinate_space() {
    assert_split_agrees(ScreenArea::new(65000, 65000, 535, 535));
    assert_split_agrees(ScreenArea::new(65535, 65535, 0, 0));
    assert_split_agrees(ScreenArea::new(65530, 65533, 5, 2));
    assert_split_agrees(ScreenArea::new(0, 0, 1000, 500));
}

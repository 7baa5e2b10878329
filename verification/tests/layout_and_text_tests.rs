use todo_tui::input::Input;
use todo_tui::key::Key;
use todo_tui::layout::{
    bordered_inner, center_area, centered_text_area, list_view_layout, margin, new_task_layout,
    top_border_inner, Rect,
};
use todo_tui::style::UiColor;
use todo_tui::text::{decimal_string, key_span, key_spans};
use todo_tui::views::ListView;

#[test]
fn center_area_halves() {
    let area = Rect::new(0, 0, 100, 100);
    let centered = center_area(area, 50, 50);
    assert_eq!(centered, Rect::new(25, 25, 50, 50));
}

#[test]
fn center_area_with_offset_origin() {
    let area = Rect::new(10, 20, 40, 10);
    let centered = center_area(area, 50, 100);
    assert_eq!(centered, Rect::new(20, 20, 20, 10));
}

#[test]
fn list_view_layout_splits_in_three() {
    let (list, content, controls) = list_view_layout(Rect::new(0, 0, 80, 20));
    assert_eq!(list, Rect::new(0, 0, 80, 10));
    assert_eq!(content, Rect::new(0, 10, 80, 9));
    assert_eq!(controls, Rect::new(0, 19, 80, 1));
}

#[test]
fn list_view_layout_tiny_area() {
    let (list, content, controls) = list_view_layout(Rect::new(0, 0, 80, 1));
    assert_eq!(list.height, 0);
    assert_eq!(content.height, 0);
    assert_eq!(controls.height, 1);
}

#[test]
fn new_task_layout_fixes_title_rows() {
    let (title, description) = new_task_layout(Rect::new(0, 0, 80, 10));
    assert_eq!(title, Rect::new(0, 0, 80, 3));
    assert_eq!(description, Rect::new(0, 3, 80, 7));
}

#[test]
fn centered_text_band() {
    let band = centered_text_area(Rect::new(0, 0, 30, 9), 1);
    assert_eq!(band, Rect::new(0, 4, 30, 1));
    // A block taller than the area gets the whole area.
    let all = centered_text_area(Rect::new(0, 0, 30, 2), 5);
    assert_eq!(all, Rect::new(0, 0, 30, 2));
}

#[test]
fn margins_and_inners() {
    let area = Rect::new(0, 0, 20, 10);
    assert_eq!(margin(area, 5, 1), Rect::new(5, 1, 10, 8));
    assert_eq!(top_border_inner(area), Rect::new(0, 1, 20, 9));
    assert_eq!(bordered_inner(area), Rect::new(1, 1, 18, 8));
    // Oversized margins collapse the dimension instead of wrapping.
    assert_eq!(margin(area, 15, 1).width, 0);
}

#[test]
fn decimal_strings() {
    assert_eq!(decimal_string(0), "0");
    assert_eq!(decimal_string(9), "9");
    assert_eq!(decimal_string(10), "10");
    assert_eq!(decimal_string(123), "123");
    assert_eq!(decimal_string(1_000), "1000");
}

#[test]
fn key_span_format() {
    assert_eq!(key_span("q/esc", "quit"), " q/esc - quit ");
}

#[test]
fn key_spans_interleave_separators() {
    let pairs = vec![
        ("a".to_string(), "first".to_string()),
        ("b".to_string(), "second".to_string()),
    ];
    let spans = key_spans(&pairs);
    assert_eq!(spans, [" a - first ", "|", " b - second ", "|"]);
}

#[test]
fn controls_line_of_list_view() {
    let view = ListView::new();
    let spans = view.render_controls_line();
    assert_eq!(
        spans,
        [
            " k/j - UP/DN ",
            "|",
            " TAB/Enter - toggle task status ",
            "|",
            " n - new task ",
            "|",
            " d/DEL - delete task ",
            "|",
            " q/esc - quit ",
            "|",
        ]
    );
    assert_eq!(
        view.empty_selection_hint(),
        "scroll on some tasks to view their content here"
    );
}

#[test]
fn input_editing_and_focus() {
    let mut input = Input::new();
    assert!(!input.focused());
    assert_eq!(input.border_color(), UiColor::White);
    input.toggle_focus();
    assert!(input.focused());
    assert_eq!(input.border_color(), UiColor::LightBlue);
    input.handle_edit_key(Key::Char('a'));
    input.handle_edit_key(Key::Char('b'));
    assert_eq!(input.value, "ab");
    input.handle_edit_key(Key::Backspace);
    assert_eq!(input.value, "a");
    input.handle_edit_key(Key::Backspace);
    input.handle_edit_key(Key::Backspace);
    assert_eq!(input.value, "");
    // Keys without an editing meaning leave the field alone.
    input.handle_edit_key(Key::Enter);
    assert_eq!(input.value, "");
}

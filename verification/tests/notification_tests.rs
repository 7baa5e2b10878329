use todo_tui::layout::Rect;
use todo_tui::notification::{Notification, NotificationLevel, NotificationStack};
use todo_tui::style::UiColor;

fn note(title: &str, created: u64, duration: u64) -> Notification {
    Notification::new(
        title.to_string(),
        format!("content of {title}"),
        duration,
        NotificationLevel::Info,
        created,
    )
}

#[test]
fn alive_until_duration_elapses() {
    let n = note("n", 100, 50);
    // Alive at creation and strictly before creation + duration.
    assert!(n.should_be_displayed(100));
    assert!(n.should_be_displayed(149));
    // Dead from creation + duration on.
    assert!(!n.should_be_displayed(150));
    assert!(!n.should_be_displayed(151));
}

#[test]
fn clock_before_creation_counts_as_expired() {
    let n = note("n", 100, 50);
    assert!(!n.should_be_displayed(99));
    assert!(!n.should_be_displayed(0));
}

#[test]
fn cleanup_keeps_alive_in_order() {
    let mut stack = NotificationStack::new();
    stack.push_notification(note("a", 0, 10));
    stack.push_notification(note("b", 0, 100));
    stack.push_notification(note("c", 50, 100));
    stack.remove_timedout_notifications(60);
    let titles: Vec<&str> = stack.notifications.iter().map(|n| n.title.as_str()).collect();
    assert_eq!(titles, ["b", "c"]);
}

#[test]
fn push_and_is_empty_ignore_expiry() {
    let mut stack = NotificationStack::new();
    assert!(stack.is_empty());
    stack.push_notification(note("dead", 0, 1));
    // Expired but still present until a cleanup or render pass.
    assert!(!stack.is_empty());
}

#[test]
fn render_drops_expired_and_lays_out_survivors() {
    let mut stack = NotificationStack::new();
    stack.push_notification(note("dead", 0, 10));
    stack.push_notification(note("live", 0, 1_000));
    let panels = stack.render(500, Rect::new(0, 0, 60, 9));
    assert_eq!(stack.notifications.len(), 1);
    assert_eq!(stack.notifications[0].title, "live");
    assert_eq!(panels.len(), 1);
    assert_eq!(panels[0].1.title, "live");
}

#[test]
fn render_on_empty_stack_draws_nothing() {
    let mut stack = NotificationStack::new();
    let panels = stack.render(0, Rect::new(0, 0, 60, 9));
    assert!(panels.is_empty());
}

#[test]
fn short_area_still_gets_one_slot() {
    let mut stack = NotificationStack::new();
    stack.push_notification(note("a", 0, 100));
    stack.push_notification(note("b", 0, 100));
    let panels = stack.render(0, Rect::new(0, 0, 60, 2));
    assert_eq!(panels.len(), 1);
    assert_eq!(panels[0].1.title, "a");
}

#[test]
fn panel_hugs_the_right_edge() {
    let n = Notification::new(
        "t".to_string(),
        "123456".to_string(),
        100,
        NotificationLevel::Info,
        0,
    );
    let area = Rect::new(0, 2, 40, 3);
    let panel = n.limit_area_width(area);
    // content length + 4 columns, flush with the right edge.
    assert_eq!(panel.width, 10);
    assert_eq!(panel.x, 30);
    assert_eq!(panel.y, 2);
    assert_eq!(panel.height, 3);
}

#[test]
fn panel_wider_than_area_is_clamped() {
    let n = Notification::new(
        "t".to_string(),
        "x".repeat(100),
        100,
        NotificationLevel::Info,
        0,
    );
    let area = Rect::new(5, 0, 40, 3);
    assert_eq!(n.limit_area_width(area), area);
}

#[test]
fn border_color_by_level() {
    assert_eq!(NotificationLevel::Info.border_color(), UiColor::LightBlue);
    assert_eq!(NotificationLevel::Warn.border_color(), UiColor::LightYellow);
    assert_eq!(NotificationLevel::Error.border_color(), UiColor::LightRed);
}

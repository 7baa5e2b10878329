use todo_tui::app::{Application, ApplicationMode, ApplicationView};
use todo_tui::key::Key;
use todo_tui::layout::Rect;
use todo_tui::notification::{Notification, NotificationLevel, NotificationStack};
use todo_tui::todo::{TodoItem, TodoItemStatus};

fn seeded(titles: &[(&str, &str, bool)]) -> Application {
    let mut app = Application::new();
    for (title, description, complete) in titles {
        let mut item = TodoItem::new(title.to_string(), description.to_string());
        if *complete {
            item.toggle_status();
        }
        app.state.todo_list.add(item);
    }
    app
}

#[test]
fn quit_from_list_with_q() {
    let mut app = Application::new();
    app.init();
    assert!(!app.is_exiting());
    app.handle_key_event(Key::Char('q'), 0);
    assert!(app.is_exiting());
}

#[test]
fn quit_from_list_with_esc() {
    let mut app = Application::new();
    app.init();
    app.handle_key_event(Key::Esc, 0);
    assert!(app.is_exiting());
}

#[test]
fn scroll_and_toggle() {
    let mut app = seeded(&[("T0", "", false), ("T1", "", false), ("T2", "", false)]);
    app.handle_key_event(Key::Char('j'), 0);
    app.handle_key_event(Key::Char('j'), 0);
    app.handle_key_event(Key::Enter, 0);
    let items = &app.state.todo_list.items;
    assert_eq!(items[0].status, TodoItemStatus::InProgress);
    assert_eq!(items[1].status, TodoItemStatus::Complete);
    assert_eq!(items[2].status, TodoItemStatus::InProgress);
    assert_eq!(app.state.todo_list.cursor, Some(1));
}

#[test]
fn delete_with_notification() {
    let mut app = seeded(&[("a", "", false), ("b", "", true)]);
    let now = 1_000;
    app.handle_key_event(Key::Char('j'), now);
    app.handle_key_event(Key::Char('d'), now);
    let titles: Vec<&String> = app.state.todo_list.items.iter().map(|t| t.title()).collect();
    assert_eq!(titles.len(), 1);
    assert_eq!(titles[0], "b");
    let stack = &app.state.notifications.notifications;
    assert_eq!(stack.len(), 1);
    let n = &stack[0];
    assert_eq!(n.title, " deleted item ");
    assert!(n.content.contains("deleted item `a` from todo list with status in progress"));
    assert_eq!(n.level, NotificationLevel::Warn);
    // Alive for its whole configured duration, expired afterwards.
    assert!(n.should_be_displayed(now));
    assert!(n.should_be_displayed(now + n.duration_ms - 1));
    assert!(!n.should_be_displayed(now + n.duration_ms));
    assert!((5_000..=7_000).contains(&n.duration_ms));
}

#[test]
fn delete_on_empty() {
    let mut app = Application::new();
    app.handle_key_event(Key::Char('d'), 0);
    assert!(app.state.todo_list.items.is_empty());
    assert!(app.state.notifications.notifications.is_empty());
}

#[test]
fn enter_and_cancel_new_task() {
    let mut app = seeded(&[("only", "task", false)]);
    app.handle_key_event(Key::Char('n'), 0);
    assert!(matches!(app.current_view, ApplicationView::NewTask(_)));
    assert_eq!(app.state.mode, ApplicationMode::Normal);
    app.handle_key_event(Key::Tab, 0);
    assert_eq!(app.state.mode, ApplicationMode::Writing);
    match &app.current_view {
        ApplicationView::NewTask(view) => assert!(view.title.focused),
        _ => panic!("expected the new-task view"),
    }
    app.handle_key_event(Key::Esc, 0);
    assert_eq!(app.state.mode, ApplicationMode::Normal);
    app.handle_key_event(Key::Char('l'), 0);
    assert!(matches!(app.current_view, ApplicationView::List(_)));
    assert_eq!(app.state.mode, ApplicationMode::Normal);
    assert_eq!(app.state.todo_list.items.len(), 1);
    assert_eq!(app.state.todo_list.items[0].title(), "only");
}

#[test]
fn notification_cap() {
    let mut stack = NotificationStack::new();
    for k in 0..10 {
        stack.push_notification(Notification::new(
            format!("t{k}"),
            format!("c{k}"),
            60_000,
            NotificationLevel::Info,
            0,
        ));
    }
    let area = Rect::new(0, 0, 60, 9);
    let panels = stack.render(1, area);
    assert_eq!(panels.len(), 3);
    // The undrawn survivors stay in the stack.
    assert_eq!(stack.notifications.len(), 10);
    // Oldest first, top-down.
    assert_eq!(panels[0].1.title, "t0");
    assert_eq!(panels[1].1.title, "t1");
    assert_eq!(panels[2].1.title, "t2");
    assert_eq!(panels[0].0.y, 0);
    assert_eq!(panels[1].0.y, 3);
    assert_eq!(panels[2].0.y, 6);
}

#[test]
fn writing_mode_gates_shell_keys() {
    let mut app = seeded(&[("keep", "", false)]);
    app.handle_key_event(Key::Char('n'), 0);
    app.handle_key_event(Key::Tab, 0);
    assert_eq!(app.state.mode, ApplicationMode::Writing);
    // While writing, 'q', 'l' and 'n' are literal input, not shell bindings.
    app.handle_key_event(Key::Char('q'), 0);
    app.handle_key_event(Key::Char('l'), 0);
    app.handle_key_event(Key::Char('n'), 0);
    assert!(!app.is_exiting());
    match &app.current_view {
        ApplicationView::NewTask(view) => assert_eq!(view.title.value, "qln"),
        _ => panic!("expected the new-task view"),
    }
    assert_eq!(app.state.todo_list.items.len(), 1);
}

#[test]
fn writing_mode_backspace_edits_title() {
    let mut app = Application::new();
    app.handle_key_event(Key::Char('n'), 0);
    app.handle_key_event(Key::Tab, 0);
    app.handle_key_event(Key::Char('h'), 0);
    app.handle_key_event(Key::Char('i'), 0);
    app.handle_key_event(Key::Backspace, 0);
    match &app.current_view {
        ApplicationView::NewTask(view) => assert_eq!(view.title.value, "h"),
        _ => panic!("expected the new-task view"),
    }
}

#[test]
fn init_seeds_demo_tasks() {
    let mut app = Application::new();
    app.init();
    let items = &app.state.todo_list.items;
    assert_eq!(items.len(), 5);
    assert_eq!(items[0].title(), "hello world");
    assert_eq!(items[0].description(), "simple todo task example");
    assert_eq!(items[1].title(), "sleep");
    assert_eq!(items[2].title(), "buy that X item");
    assert_eq!(items[3].title(), "test");
    assert_eq!(items[4].title(), "call X");
    assert_eq!(items[4].description(), "number: 123-456-7890");
    for item in items.iter() {
        assert_eq!(*item.status(), TodoItemStatus::InProgress);
    }
    assert!(matches!(app.current_view, ApplicationView::List(_)));
    assert_eq!(app.state.mode, ApplicationMode::Normal);
    assert!(!app.is_exiting());
}

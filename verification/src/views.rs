//! The two views. The list view scrolls, toggles and deletes tasks and
//! reports a deletion with a warning notification; the new-task view owns
//! the title and description fields of the form. Each view states as one
//! relation what its key handler does to the application state.

use vstd::prelude::*;
use crate::app::{ApplicationMode, ApplicationState};
use crate::input::Input;
use crate::key::Key;
use crate::notification::{Notification, NotificationLevel};
use crate::text::{key_spans, spec_key_span};
use crate::todo::TodoItemStatus;

verus! {

/// How long the deletion notification lives, in milliseconds.
pub const DELETE_NOTIFICATION_MS: u64 = 5000;

/// The title of the deletion notification.
pub open spec fn spec_deleted_title() -> Seq<char> {
    " deleted item "@
}

/// The content of the deletion notification for a task with this title
/// and status.
pub open spec fn spec_deleted_content(title: Seq<char>, status: TodoItemStatus) -> Seq<char> {
    "deleted item `"@ + title + "` from todo list with status "@ + status.spec_text()
}

/// Builds the content line of the deletion notification.
pub fn deleted_notification_content(title: &String, status: &TodoItemStatus) -> (r: String)
    ensures
        r@ == spec_deleted_content(title@, *status),
{
    let mut s = "deleted item `".to_owned();
    s.append(title.as_str());
    s.append("` from todo list with status ");
    let status_text = status.as_text();
    s.append(status_text.as_str());
    proof {
        assert(s@ =~= spec_deleted_content(title@, *status));
    }
    s
}

/// What one key does to the state while the list view is active. `j`/down
/// and `k`/up move the cursor, enter/tab toggles the selected task,
/// `d`/delete removes it and pushes a warning notification naming it;
/// every other key does nothing. Mode and running state never change
/// here.
pub open spec fn list_key_rel(
    s0: ApplicationState,
    s1: ApplicationState,
    key: Key,
    now_ms: u64,
) -> bool {
    &&& s1.mode == s0.mode
    &&& s1.running_state == s0.running_state
    &&& if key == Key::Char('j') || key == Key::Down {
        &&& s1.todo_list.items == s0.todo_list.items
        &&& s1.todo_list.cursor == s0.todo_list.spec_next_cursor()
        &&& s1.notifications == s0.notifications
    } else if key == Key::Char('k') || key == Key::Up {
        &&& s1.todo_list.items == s0.todo_list.items
        &&& s1.todo_list.cursor == s0.todo_list.spec_prev_cursor()
        &&& s1.notifications == s0.notifications
    } else if key == Key::Enter || key == Key::Tab {
        &&& s1.todo_list.items@ == s0.todo_list.spec_toggled_items()
        &&& s1.todo_list.cursor == s0.todo_list.cursor
        &&& s1.notifications == s0.notifications
    } else if key == Key::Char('d') || key == Key::Delete {
        match s0.todo_list.cursor {
            Some(i) => {
                &&& s1.todo_list.items@ == s0.todo_list.items@.remove(i as int)
                &&& s1.todo_list.cursor == s0.todo_list.spec_deleted_cursor()
                &&& ({
                    let n = s1.notifications.notifications@.last();
                    &&& s1.notifications.notifications@ == s0.notifications.notifications@.push(n)
                    &&& n.title@ == spec_deleted_title()
                    &&& n.content@ == spec_deleted_content(
                        s0.todo_list.items@[i as int].title@,
                        s0.todo_list.items@[i as int].status,
                    )
                    &&& n.duration_ms == DELETE_NOTIFICATION_MS
                    &&& n.created_at_ms == now_ms
                    &&& n.level == NotificationLevel::Warn
                })
            },
            None => s1.todo_list == s0.todo_list && s1.notifications == s0.notifications,
        }
    } else {
        s1.todo_list == s0.todo_list && s1.notifications == s0.notifications
    }
}

/// The list view. It holds no state of its own; it reads and mutates the
/// application state it is handed.
pub struct ListView {
}

impl ListView {
    pub fn new() -> (r: ListView) {
        ListView {  }
    }

    /// Handles one key already filtered by the shell.
    pub fn view_event_key(&self, state: &mut ApplicationState, key: Key, now_ms: u64)
        requires
            old(state).todo_list.wf(),
        ensures
            final(state).todo_list.wf(),
            list_key_rel(*old(state), *final(state), key, now_ms),
    {
        if key == Key::Char('j') || key == Key::Down {
            state.todo_list.next();
        } else if key == Key::Char('k') || key == Key::Up {
            state.todo_list.prev();
        } else if key == Key::Enter || key == Key::Tab {
            state.todo_list.toggle_current_status();
        } else if key == Key::Char('d') || key == Key::Delete {
            match state.todo_list.delete_current() {
                Some(item) => {
                    let content = deleted_notification_content(&item.title, &item.status);
                    let n = Notification::new(
                        " deleted item ".to_owned(),
                        content,
                        DELETE_NOTIFICATION_MS,
                        NotificationLevel::Warn,
                        now_ms,
                    );
                    state.notifications.push_notification(n);
                },
                None => {},
            }
        }
    }

    /// The spans of the controls strip at the bottom of the list view.
    pub fn render_controls_line(&self) -> (r: Vec<String>)
        ensures
            r@.len() == 10,
            r@[0]@ == spec_key_span("k/j"@, "UP/DN"@),
            r@[2]@ == spec_key_span("TAB/Enter"@, "toggle task status"@),
            r@[4]@ == spec_key_span("n"@, "new task"@),
            r@[6]@ == spec_key_span("d/DEL"@, "delete task"@),
            r@[8]@ == spec_key_span("q/esc"@, "quit"@),
            r@[1]@ == "|"@ && r@[3]@ == "|"@ && r@[5]@ == "|"@ && r@[7]@ == "|"@ && r@[9]@
                == "|"@,
    {
        let mut pairs: Vec<(String, String)> = Vec::new();
        pairs.push(("k/j".to_owned(), "UP/DN".to_owned()));
        pairs.push(("TAB/Enter".to_owned(), "toggle task status".to_owned()));
        pairs.push(("n".to_owned(), "new task".to_owned()));
        pairs.push(("d/DEL".to_owned(), "delete task".to_owned()));
        pairs.push(("q/esc".to_owned(), "quit".to_owned()));
        let r = key_spans(&pairs);
        proof {
            assert(r@[2int * 0]@ == spec_key_span(pairs@[0].0@, pairs@[0].1@));
            assert(r@[2int * 1]@ == spec_key_span(pairs@[1].0@, pairs@[1].1@));
            assert(r@[2int * 2]@ == spec_key_span(pairs@[2].0@, pairs@[2].1@));
            assert(r@[2int * 3]@ == spec_key_span(pairs@[3].0@, pairs@[3].1@));
            assert(r@[2int * 4]@ == spec_key_span(pairs@[4].0@, pairs@[4].1@));
            assert(r@[2int * 0 + 1]@ == "|"@);
            assert(r@[2int * 1 + 1]@ == "|"@);
            assert(r@[2int * 2 + 1]@ == "|"@);
            assert(r@[2int * 3 + 1]@ == "|"@);
            assert(r@[2int * 4 + 1]@ == "|"@);
        }
        r
    }

    /// The hint shown in the description panel while nothing is selected.
    pub fn empty_selection_hint(&self) -> (r: &'static str)
        ensures
            r@ == "scroll on some tasks to view their content here"@,
    {
        "scroll on some tasks to view their content here"
    }
}

/// What one key does to the form and the mode while the new-task view is
/// active. In normal mode, tab focuses the title field and starts
/// writing; while writing, escape returns to normal mode and every other
/// key edits the focused field.
pub open spec fn new_task_key_rel(
    v0: NewTaskView,
    v1: NewTaskView,
    m0: ApplicationMode,
    m1: ApplicationMode,
    key: Key,
) -> bool {
    match m0 {
        ApplicationMode::Normal => {
            if key == Key::Tab {
                &&& v1.title.focused == !v0.title.focused
                &&& v1.title.value == v0.title.value
                &&& v1.description == v0.description
                &&& m1 == ApplicationMode::Writing
            } else {
                v1 == v0 && m1 == m0
            }
        },
        ApplicationMode::Writing => {
            if key == Key::Esc {
                v1 == v0 && m1 == ApplicationMode::Normal
            } else {
                &&& m1 == m0
                &&& if v0.title.focused {
                    Input::edit_rel(v0.title, v1.title, key) && v1.description == v0.description
                } else if v0.description.focused {
                    Input::edit_rel(v0.description, v1.description, key) && v1.title == v0.title
                } else {
                    v1 == v0
                }
            }
        },
    }
}

/// The new-task form: a title field and a description field. Both start
/// empty and unfocused whenever the view is entered.
pub struct NewTaskView {
    pub title: Input,
    pub description: Input,
}

impl NewTaskView {
    /// A fresh form.
    pub fn new() -> (r: NewTaskView)
        ensures
            r.title.value@ == Seq::<char>::empty(),
            !r.title.focused,
            r.description.value@ == Seq::<char>::empty(),
            !r.description.focused,
    {
        NewTaskView { title: Input::new(), description: Input::new() }
    }

    /// Handles one key already filtered by the shell.
    pub fn view_event_key(&mut self, mode: &mut ApplicationMode, key: Key)
        ensures
            new_task_key_rel(*old(self), *final(self), *old(mode), *final(mode), key),
    {
        let writing = match mode {
            ApplicationMode::Writing => true,
            ApplicationMode::Normal => false,
        };
        if !writing {
            if key == Key::Tab {
                self.title.toggle_focus();
                *mode = ApplicationMode::Writing;
            }
        } else {
            if key == Key::Esc {
                *mode = ApplicationMode::Normal;
            } else if self.title.focused() {
                self.title.handle_edit_key(key);
            } else if self.description.focused() {
                self.description.handle_edit_key(key);
            }
        }
    }
}

} // verus!

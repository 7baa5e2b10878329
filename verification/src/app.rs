//! The application shell: the global state, the active view, and the key
//! dispatch. In normal mode `n`, `l`, `q` and escape are shell bindings
//! (new-task view, list view, quit, quit); every other key goes to the
//! active view. While the mode is writing, no shell binding fires. The
//! draw/poll loop itself lives in the binary; it asks the shell for every
//! decision.

use vstd::prelude::*;
use crate::key::Key;
use crate::notification::NotificationStack;
use crate::todo::{TodoItem, TodoItemStatus, TodoList};
use crate::views::{list_key_rel, new_task_key_rel, ListView, NewTaskView};

verus! {

/// Whether the main loop keeps going.
#[derive(Clone, Copy, PartialEq, Eq, Structural, Debug)]
pub enum ApplicationRunningState {
    Running,
    Exiting,
}

/// Normal: keys are commands. Writing: keys are literal input to a
/// focused field. Only the new-task view ever enters writing mode.
#[derive(Clone, Copy, PartialEq, Eq, Structural, Debug)]
pub enum ApplicationMode {
    Normal,
    Writing,
}

/// The state every view reads and mutates.
pub struct ApplicationState {
    pub mode: ApplicationMode,
    pub running_state: ApplicationRunningState,
    pub notifications: NotificationStack,
    pub todo_list: TodoList,
}

/// The active view.
pub enum ApplicationView {
    List(ListView),
    NewTask(NewTaskView),
}

/// The application: its state and the active view.
pub struct Application {
    pub state: ApplicationState,
    pub current_view: ApplicationView,
}

/// Whether a key is taken by the shell itself before any view sees it:
/// only in normal mode, and only `n`, `l`, `q` and escape.
pub open spec fn spec_shell_key(mode: ApplicationMode, key: Key) -> bool {
    &&& mode == ApplicationMode::Normal
    &&& (key == Key::Char('n') || key == Key::Char('l') || key == Key::Char('q') || key
        == Key::Esc)
}

/// The five demo tasks appended to `pre`, all in progress.
pub open spec fn spec_demo_seeded(pre: Seq<TodoItem>, post: Seq<TodoItem>) -> bool {
    let b = pre.len() as int;
    &&& post.len() == pre.len() + 5
    &&& post.subrange(0, b) == pre
    &&& post[b].title@ == "hello world"@
    &&& post[b].description@ == "simple todo task example"@
    &&& post[b + 1].title@ == "sleep"@
    &&& post[b + 1].description@ == "sleep or whatever"@
    &&& post[b + 2].title@ == "buy that X item"@
    &&& post[b + 2].description@ == "Go to the mall and buy X"@
    &&& post[b + 3].title@ == "test"@
    &&& post[b + 3].description@ == "test the item"@
    &&& post[b + 4].title@ == "call X"@
    &&& post[b + 4].description@ == "number: 123-456-7890"@
    &&& forall|k: int|
        b <= k < post.len() ==> (#[trigger] post[k]).status == TodoItemStatus::InProgress
}

/// What one key does to the whole application. The shell bindings come
/// first, and only in normal mode: `n` installs a fresh new-task view,
/// `l` installs the list view, `q` and escape ask the loop to exit, and
/// none of them touches anything else. Every other key is forwarded to
/// the active view, which never changes kind while it handles one.
pub open spec fn handle_key_rel(a0: Application, a1: Application, key: Key, now_ms: u64) -> bool {
    if a0.state.mode == ApplicationMode::Normal && key == Key::Char('n') {
        &&& a1.current_view matches ApplicationView::NewTask(v) && v.title.value@.len() == 0
            && !v.title.focused && v.description.value@.len() == 0 && !v.description.focused
        &&& a1.state == a0.state
    } else if a0.state.mode == ApplicationMode::Normal && key == Key::Char('l') {
        &&& a1.current_view is List
        &&& a1.state == a0.state
    } else if spec_shell_key(a0.state.mode, key) {
        &&& a1.state.running_state == ApplicationRunningState::Exiting
        &&& a1.state.mode == a0.state.mode
        &&& a1.state.todo_list == a0.state.todo_list
        &&& a1.state.notifications == a0.state.notifications
        &&& a1.current_view == a0.current_view
    } else {
        match (a0.current_view, a1.current_view) {
            (ApplicationView::List(_), ApplicationView::List(_)) => list_key_rel(
                a0.state,
                a1.state,
                key,
                now_ms,
            ),
            (ApplicationView::NewTask(v0), ApplicationView::NewTask(v1)) => {
                &&& new_task_key_rel(v0, v1, a0.state.mode, a1.state.mode, key)
                &&& a1.state.todo_list == a0.state.todo_list
                &&& a1.state.notifications == a0.state.notifications
                &&& a1.state.running_state == a0.state.running_state
            },
            _ => false,
        }
    }
}

impl Application {
    /// The shell's invariant: the todo list's cursor is sound, and the
    /// mode can be writing only while the new-task view is active — in
    /// the list view the mode is always normal.
    pub open spec fn wf(self) -> bool {
        &&& self.state.todo_list.wf()
        &&& (self.current_view is List ==> self.state.mode == ApplicationMode::Normal)
    }

    /// A fresh application: running, in normal mode, with the list view
    /// active, no tasks and no notifications.
    pub fn new() -> (r: Application)
        ensures
            r.wf(),
            r.state.mode == ApplicationMode::Normal,
            r.state.running_state == ApplicationRunningState::Running,
            r.state.todo_list.items@ == Seq::<TodoItem>::empty(),
            r.state.todo_list.cursor is None,
            r.state.notifications.notifications@ == Seq::<crate::notification::Notification>::empty(),
            r.current_view is List,
    {
        Application {
            state: ApplicationState {
                mode: ApplicationMode::Normal,
                running_state: ApplicationRunningState::Running,
                notifications: NotificationStack::new(),
                todo_list: TodoList::new(),
            },
            current_view: ApplicationView::List(ListView::new()),
        }
    }

    /// Seeds the todo list with the demo tasks and installs the list
    /// view.
    pub fn init(&mut self)
        requires
            old(self).state.todo_list.wf(),
            old(self).state.mode == ApplicationMode::Normal,
        ensures
            final(self).wf(),
            final(self).current_view is List,
            spec_demo_seeded(old(self).state.todo_list.items@, final(self).state.todo_list.items@),
            final(self).state.todo_list.cursor == old(self).state.todo_list.cursor,
            final(self).state.mode == old(self).state.mode,
            final(self).state.running_state == old(self).state.running_state,
            final(self).state.notifications == old(self).state.notifications,
    {
        self.load_data();
        self.current_view = ApplicationView::List(ListView::new());
    }

    /// Appends the demo tasks to the todo list.
    pub fn load_data(&mut self)
        requires
            old(self).state.todo_list.wf(),
        ensures
            final(self).state.todo_list.wf(),
            spec_demo_seeded(old(self).state.todo_list.items@, final(self).state.todo_list.items@),
            final(self).state.todo_list.cursor == old(self).state.todo_list.cursor,
            final(self).state.mode == old(self).state.mode,
            final(self).state.running_state == old(self).state.running_state,
            final(self).state.notifications == old(self).state.notifications,
            final(self).current_view == old(self).current_view,
    {
        self.state.todo_list.add(
            TodoItem::new("hello world".to_owned(), "simple todo task example".to_owned()),
        );
        self.state.todo_list.add(TodoItem::new("sleep".to_owned(), "sleep or whatever".to_owned()));
        self.state.todo_list.add(
            TodoItem::new("buy that X item".to_owned(), "Go to the mall and buy X".to_owned()),
        );
        self.state.todo_list.add(TodoItem::new("test".to_owned(), "test the item".to_owned()));
        self.state.todo_list.add(
            TodoItem::new("call X".to_owned(), "number: 123-456-7890".to_owned()),
        );
        proof {
            assert(self.state.todo_list.items@.subrange(
                0,
                old(self).state.todo_list.items@.len() as int,
            ) =~= old(self).state.todo_list.items@);
        }
    }

    /// Dispatches one pressed key, shell bindings first.
    pub fn handle_key_event(&mut self, key: Key, now_ms: u64)
        requires
            old(self).wf(),
        ensures
            final(self).wf(),
            handle_key_rel(*old(self), *final(self), key, now_ms),
    {
        let normal = match self.state.mode {
            ApplicationMode::Normal => true,
            ApplicationMode::Writing => false,
        };
        if normal && key == Key::Char('n') {
            self.current_view = ApplicationView::NewTask(NewTaskView::new());
        } else if normal && key == Key::Char('l') {
            self.current_view = ApplicationView::List(ListView::new());
        } else if normal && (key == Key::Char('q') || key == Key::Esc) {
            self.state.running_state = ApplicationRunningState::Exiting;
        } else {
            match &mut self.current_view {
                ApplicationView::List(view) => {
                    view.view_event_key(&mut self.state, key, now_ms);
                },
                ApplicationView::NewTask(view) => {
                    view.view_event_key(&mut self.state.mode, key);
                },
            }
        }
    }

    /// Whether the loop should stop.
    pub fn is_exiting(&self) -> (r: bool)
        ensures
            r == (self.state.running_state == ApplicationRunningState::Exiting),
    {
        match self.state.running_state {
            ApplicationRunningState::Exiting => true,
            ApplicationRunningState::Running => false,
        }
    }
}

/// In the list view the mode is always normal.
pub proof fn lemma_list_view_mode_normal(a: Application)
    requires
        a.wf(),
        a.current_view is List,
    ensures
        a.state.mode == ApplicationMode::Normal,
{
}

/// While the mode is writing, the shell bindings are inert: whatever the
/// key, handling it changes neither the running state, nor the kind of
/// the active view, nor the todo list, nor the notifications.
pub proof fn lemma_mode_gates_shell_keys(a0: Application, a1: Application, key: Key, now_ms: u64)
    requires
        a0.wf(),
        a0.state.mode == ApplicationMode::Writing,
        handle_key_rel(a0, a1, key, now_ms),
    ensures
        a1.state.running_state == a0.state.running_state,
        a1.state.todo_list == a0.state.todo_list,
        a1.state.notifications == a0.state.notifications,
        a1.current_view is NewTask <==> a0.current_view is NewTask,
{
}

} // verus!

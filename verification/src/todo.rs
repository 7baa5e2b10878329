//! The todo model: tasks with a title, a description and a completion
//! status, and the ordered task list with its selection cursor. The cursor
//! is either unset or a valid index; every operation keeps it that way.

use vstd::prelude::*;
use vstd::string::StringExecFns;
use crate::style::UiColor;
use crate::text::{decimal_string, spec_decimal};

verus! {

/// Completion state of a single task.
#[derive(Clone, Copy, PartialEq, Eq, Structural, Debug)]
pub enum TodoItemStatus {
    InProgress,
    Complete,
}

impl TodoItemStatus {
    /// The other status: toggling swaps the two cases.
    pub open spec fn spec_toggled(self) -> TodoItemStatus {
        match self {
            TodoItemStatus::InProgress => TodoItemStatus::Complete,
            TodoItemStatus::Complete => TodoItemStatus::InProgress,
        }
    }

    /// The human-readable form of the status.
    pub open spec fn spec_text(self) -> Seq<char> {
        match self {
            TodoItemStatus::InProgress => "in progress"@,
            TodoItemStatus::Complete => "complete"@,
        }
    }

    /// The status badge of a task row, padded to a fixed width so the
    /// separators of all rows align.
    pub open spec fn spec_badge(self) -> Seq<char> {
        match self {
            TodoItemStatus::InProgress => "in progress"@,
            TodoItemStatus::Complete => "complete   "@,
        }
    }

    /// The human-readable form: "in progress" or "complete".
    pub fn as_text(&self) -> (r: String)
        ensures
            r@ == self.spec_text(),
    {
        match self {
            TodoItemStatus::InProgress => "in progress".to_owned(),
            TodoItemStatus::Complete => "complete".to_owned(),
        }
    }

    /// The fixed-width status badge shown at the left of a task row.
    pub fn badge_text(&self) -> (r: String)
        ensures
            r@ == self.spec_badge(),
    {
        match self {
            TodoItemStatus::InProgress => "in progress".to_owned(),
            TodoItemStatus::Complete => "complete   ".to_owned(),
        }
    }

    /// The color of the status badge: light blue while in progress, light
    /// green once complete.
    pub open spec fn spec_badge_color(self) -> UiColor {
        match self {
            TodoItemStatus::InProgress => UiColor::LightBlue,
            TodoItemStatus::Complete => UiColor::LightGreen,
        }
    }

    /// The color of the status badge.
    pub fn badge_color(&self) -> (r: UiColor)
        ensures
            r == self.spec_badge_color(),
    {
        match self {
            TodoItemStatus::InProgress => UiColor::LightBlue,
            TodoItemStatus::Complete => UiColor::LightGreen,
        }
    }
}

/// A single task. Created in progress; only its status ever changes.
pub struct TodoItem {
    pub title: String,
    pub description: String,
    pub status: TodoItemStatus,
}

impl TodoItem {
    /// The same task with its status flipped.
    pub open spec fn spec_toggled(self) -> TodoItem {
        TodoItem { status: self.status.spec_toggled(), ..self }
    }

    /// A new task starts in progress.
    pub fn new(title: String, description: String) -> (r: TodoItem)
        ensures
            r.title == title,
            r.description == description,
            r.status == TodoItemStatus::InProgress,
    {
        TodoItem { title, description, status: TodoItemStatus::InProgress }
    }

    pub fn title(&self) -> (r: &String)
        ensures
            r == &self.title,
    {
        &self.title
    }

    pub fn description(&self) -> (r: &String)
        ensures
            r == &self.description,
    {
        &self.description
    }

    pub fn status(&self) -> (r: &TodoItemStatus)
        ensures
            r == &self.status,
    {
        &self.status
    }

    /// Flips the status and touches nothing else.
    pub fn toggle_status(&mut self)
        ensures
            *final(self) == old(self).spec_toggled(),
    {
        match self.status {
            TodoItemStatus::InProgress => self.status = TodoItemStatus::Complete,
            TodoItemStatus::Complete => self.status = TodoItemStatus::InProgress,
        }
    }
}

/// An ordered task list with a selection cursor. The order is insertion
/// order; the cursor is unset or an in-range index.
pub struct TodoList {
    pub items: Vec<TodoItem>,
    pub cursor: Option<usize>,
}

impl TodoList {
    /// The cursor, when set, points at an existing task.
    pub open spec fn wf(self) -> bool {
        match self.cursor {
            Some(i) => self.items@.len() > 0 && (i as int) < self.items@.len(),
            None => true,
        }
    }

    /// The titles of the tasks, in list order.
    pub open spec fn spec_titles(self) -> Seq<Seq<char>> {
        self.items@.map_values(|t: TodoItem| t.title@)
    }

    /// The task under the cursor, if the cursor is a valid in-range index
    /// of a non-empty list.
    pub open spec fn spec_selected(self) -> Option<TodoItem> {
        match self.cursor {
            Some(i) => if 0 < self.items@.len() && (i as int) < self.items@.len() {
                Some(self.items@[i as int])
            } else {
                None
            },
            None => None,
        }
    }

    /// Where the cursor lands after a step toward the end: the next index,
    /// clamped to the last one; the first index when the cursor was unset;
    /// unset on an empty list.
    pub open spec fn spec_next_cursor(self) -> Option<usize> {
        if self.items@.len() == 0 {
            None
        } else {
            match self.cursor {
                None => Some(0usize),
                Some(i) => if i + 1 < self.items@.len() {
                    Some((i + 1) as usize)
                } else {
                    Some((self.items@.len() - 1) as usize)
                },
            }
        }
    }

    /// Where the cursor lands after a step toward the start: the previous
    /// index, clamped to the first one; the last index when the cursor was
    /// unset; unset on an empty list.
    pub open spec fn spec_prev_cursor(self) -> Option<usize> {
        if self.items@.len() == 0 {
            None
        } else {
            match self.cursor {
                None => Some((self.items@.len() - 1) as usize),
                Some(i) => if i > 0 {
                    Some((i - 1) as usize)
                } else {
                    Some(0usize)
                },
            }
        }
    }

    /// Where the cursor lands after deleting the selected task: on what
    /// was the next task, or unset when the removed task was the last one
    /// or the list became empty. An unset cursor stays unset.
    pub open spec fn spec_deleted_cursor(self) -> Option<usize> {
        match self.cursor {
            Some(i) => if self.items@.len() <= 1 {
                None
            } else if (i as int) < self.items@.len() - 1 {
                Some(i)
            } else {
                None
            },
            None => None,
        }
    }

    /// The task sequence after toggling the selected task, or the original
    /// sequence when nothing is selected.
    pub open spec fn spec_toggled_items(self) -> Seq<TodoItem> {
        match self.spec_selected() {
            Some(item) => self.items@.update(self.cursor->0 as int, item.spec_toggled()),
            None => self.items@,
        }
    }

    /// An empty list with the cursor unset.
    pub fn new() -> (r: TodoList)
        ensures
            r.items@ == Seq::<TodoItem>::empty(),
            r.cursor is None,
            r.wf(),
    {
        TodoList { items: Vec::new(), cursor: None }
    }

    /// The selected task, if any.
    pub fn selected(&self) -> (r: Option<&TodoItem>)
        requires
            self.wf(),
        ensures
            match r {
                Some(item) => self.spec_selected() == Some(*item),
                None => self.spec_selected() is None,
            },
    {
        match self.selected_index() {
            Some(i) => Some(&self.items[i]),
            None => None,
        }
    }

    /// Moves the cursor one position toward the start.
    pub fn prev(&mut self)
        requires
            old(self).wf(),
        ensures
            final(self).wf(),
            final(self).items == old(self).items,
            final(self).cursor == old(self).spec_prev_cursor(),
    {
        let len = self.items.len();
        if len == 0 {
            self.cursor = None;
        } else {
            let i: usize = match self.cursor {
                None => len - 1,
                Some(i) => if i > 0 { i - 1 } else { 0 },
            };
            self.cursor = Some(i);
        }
    }

    /// Moves the cursor one position toward the end.
    pub fn next(&mut self)
        requires
            old(self).wf(),
        ensures
            final(self).wf(),
            final(self).items == old(self).items,
            final(self).cursor == old(self).spec_next_cursor(),
    {
        let len = self.items.len();
        if len == 0 {
            self.cursor = None;
        } else {
            let i: usize = match self.cursor {
                None => 0,
                Some(i) => if i + 1 < len { i + 1 } else { len - 1 },
            };
            self.cursor = Some(i);
        }
    }

    /// Appends a task at the end without moving the cursor.
    pub fn add(&mut self, item: TodoItem)
        requires
            old(self).wf(),
        ensures
            final(self).wf(),
            final(self).items@ == old(self).items@.push(item),
            final(self).cursor == old(self).cursor,
    {
        self.items.push(item);
    }

    /// Removes and returns the selected task. The remaining tasks keep
    /// their relative order; the cursor then points at what was the next
    /// task, or becomes unset when the removed task was the last one or
    /// the list is now empty.
    pub fn delete_current(&mut self) -> (r: Option<TodoItem>)
        requires
            old(self).wf(),
        ensures
            final(self).wf(),
            match old(self).cursor {
                Some(i) => {
                    &&& r == Some(old(self).items@[i as int])
                    &&& final(self).items@ == old(self).items@.remove(i as int)
                    &&& final(self).cursor == old(self).spec_deleted_cursor()
                },
                None => {
                    &&& r is None
                    &&& final(self).items == old(self).items
                    &&& final(self).cursor == old(self).cursor
                },
            },
    {
        match self.cursor {
            Some(i) => {
                let item = self.items.remove(i);
                let len = self.items.len();
                if len == 0 {
                    self.cursor = None;
                } else if i < len {
                    self.cursor = Some(i);
                } else {
                    self.cursor = None;
                }
                Some(item)
            },
            None => None,
        }
    }

    /// Flips the status of the selected task, if any.
    pub fn toggle_current_status(&mut self)
        requires
            old(self).wf(),
        ensures
            final(self).wf(),
            final(self).cursor == old(self).cursor,
            final(self).items@ == old(self).spec_toggled_items(),
    {
        match self.cursor {
            Some(i) => {
                let mut item = self.items.remove(i);
                item.toggle_status();
                self.items.insert(i, item);
                proof {
                    assert(self.items@ =~= old(self).spec_toggled_items());
                }
            },
            None => {},
        }
    }

    /// Whether the list holds no tasks.
    pub fn is_empty(&self) -> (r: bool)
        ensures
            r == (self.items@.len() == 0),
    {
        self.items.len() == 0
    }

    /// The index of the selected task: the cursor, consulted only when the
    /// list is non-empty.
    pub fn selected_index(&self) -> (r: Option<usize>)
        ensures
            match r {
                Some(i) => self.cursor == Some(i) && self.items@.len() > 0,
                None => self.cursor is None || self.items@.len() == 0,
            },
    {
        match self.cursor {
            Some(i) => if self.items.len() > 0 { Some(i) } else { None },
            None => None,
        }
    }

    /// The background of a task row alternates: dark gray on even indices,
    /// black on odd ones.
    pub fn alternate_color(n: usize) -> (r: UiColor)
        ensures
            r == (if n % 2 == 0 { UiColor::DarkGray } else { UiColor::Black }),
    {
        if n % 2 == 0 {
            UiColor::DarkGray
        } else {
            UiColor::Black
        }
    }
}

/// The cyan index prefix of a task row: the zero-based position in
/// parentheses.
pub open spec fn spec_index_label(i: nat) -> Seq<char> {
    "(#"@ + spec_decimal(i) + ") "@
}

/// Builds the index prefix of the task at position `i`.
pub fn index_label(i: usize) -> (r: String)
    ensures
        r@ == spec_index_label(i as nat),
{
    let mut s = "(#".to_owned();
    let digits = decimal_string(i);
    s.append(digits.as_str());
    s.append(") ");
    proof {
        assert(s@ =~= spec_index_label(i as nat));
    }
    s
}

/// One row of the rendered task list: the fixed-width status badge and
/// its color, the index prefix, the title, the alternating background,
/// and whether the row is the selected one (shown highlighted and behind
/// the `"> "` symbol).
pub struct TodoRow {
    pub badge: String,
    pub badge_color: UiColor,
    pub index_label: String,
    pub title: String,
    pub background: UiColor,
    pub selected: bool,
}

impl TodoList {
    /// Lays out the task list: one row per task, in list order.
    pub fn render_todo_list(&self) -> (rows: Vec<TodoRow>)
        ensures
            rows@.len() == self.items@.len(),
            forall|i: int|
                0 <= i < rows@.len() ==> {
                    let row = #[trigger] rows@[i];
                    &&& row.badge@ == self.items@[i].status.spec_badge()
                    &&& row.badge_color == self.items@[i].status.spec_badge_color()
                    &&& row.index_label@ == spec_index_label(i as nat)
                    &&& row.title@ == self.items@[i].title@
                    &&& row.background == (if i % 2 == 0 {
                        UiColor::DarkGray
                    } else {
                        UiColor::Black
                    })
                    &&& row.selected == (self.cursor == Some(i as usize))
                },
    {
        let mut rows: Vec<TodoRow> = Vec::new();
        let mut k: usize = 0;
        while k < self.items.len()
            invariant
                k <= self.items@.len(),
                rows@.len() == k,
                forall|i: int|
                    0 <= i < k ==> {
                        let row = #[trigger] rows@[i];
                        &&& row.badge@ == self.items@[i].status.spec_badge()
                        &&& row.badge_color == self.items@[i].status.spec_badge_color()
                        &&& row.index_label@ == spec_index_label(i as nat)
                        &&& row.title@ == self.items@[i].title@
                        &&& row.background == (if i % 2 == 0 {
                            UiColor::DarkGray
                        } else {
                            UiColor::Black
                        })
                        &&& row.selected == (self.cursor == Some(i as usize))
                    },
            decreases self.items@.len() - k,
        {
            let item = &self.items[k];
            let selected = match self.cursor {
                Some(c) => c == k,
                None => false,
            };
            let row = TodoRow {
                badge: item.status.badge_text(),
                badge_color: item.status.badge_color(),
                index_label: index_label(k),
                title: item.title.clone(),
                background: TodoList::alternate_color(k),
                selected,
            };
            rows.push(row);
            k = k + 1;
        }
        rows
    }

    /// The message shown instead of the list while it is empty.
    pub fn render_empty_todo_list(&self) -> (r: &'static str)
        ensures
            r@ == "Todo list empty"@,
    {
        "Todo list empty"
    }

    /// The symbol drawn in front of the selected row.
    pub fn highlight_symbol() -> (r: &'static str)
        ensures
            r@ == "> "@,
    {
        "> "
    }
}

/// Whatever the cursor holds, a selected task is a task of the list at a
/// valid in-range position: selection never dangles.
pub proof fn lemma_selected_in_bounds(l: TodoList)
    requires
        l.wf(),
    ensures
        match l.spec_selected() {
            Some(item) => {
                &&& l.cursor is Some
                &&& 0 <= (l.cursor->0 as int) < l.items@.len()
                &&& item == l.items@[l.cursor->0 as int]
            },
            None => true,
        },
{
}

/// Deletion preserves the order of the remaining tasks: the titles after
/// deleting the selected task are the original titles with the selected
/// one removed at its original position.
pub proof fn lemma_delete_preserves_title_order(l0: TodoList, l1: TodoList)
    requires
        l0.wf(),
        l0.cursor is Some,
        l1.items@ == l0.items@.remove(l0.cursor->0 as int),
    ensures
        l1.spec_titles() == l0.spec_titles().remove(l0.cursor->0 as int),
{
    assert(l1.spec_titles() =~= l0.spec_titles().remove(l0.cursor->0 as int));
}

/// Toggling the selected task twice restores the list: same tasks, same
/// statuses, same cursor.
pub proof fn lemma_toggle_involutive(l0: TodoList, l1: TodoList)
    requires
        l0.wf(),
        l1.items@ == l0.spec_toggled_items(),
        l1.cursor == l0.cursor,
    ensures
        l1.spec_toggled_items() == l0.items@,
{
    match l0.cursor {
        Some(i) => {
            assert(l1.spec_toggled_items() =~= l0.items@);
        },
        None => {},
    }
}

} // verus!

//! Task store: the two ordered task sequences, their selection cursors, the
//! focus state, and the interaction-loop transitions that drive them.

use vstd::prelude::*;

verus! {

/// Which section is currently receiving navigation and transfer input.
#[derive(Clone, Copy, PartialEq, Eq, Structural, Debug)]
pub enum Focus {
    PendingView,
    DoneView,
}

impl Focus {
    /// The other focus state.
    pub open spec fn spec_toggle(self) -> Focus {
        match self {
            Focus::PendingView => Focus::DoneView,
            Focus::DoneView => Focus::PendingView,
        }
    }

    /// Switches focus to the other section.
    pub fn toggle(&self) -> (r: Focus)
        ensures
            r == self.spec_toggle(),
    {
        match self {
            Focus::PendingView => Focus::DoneView,
            Focus::DoneView => Focus::PendingView,
        }
    }
}

/// Law: toggling the focus twice returns it to where it started.
pub proof fn lemma_toggle_idempotent(focus: Focus)
    ensures
        focus.spec_toggle().spec_toggle() == focus,
{
}

/// The exclusive bound a selection cursor stays under: the sequence's
/// length, or 1 for an empty sequence, whose cursor rests at 0.
pub open spec fn cursor_bound(len: nat) -> nat {
    if len == 0 {
        1
    } else {
        len
    }
}

/// Moving the selection up: one step toward 0, floored at 0.
pub open spec fn spec_move_up(cursor: nat) -> nat {
    if cursor > 0 {
        (cursor - 1) as nat
    } else {
        0
    }
}

/// Moving the selection down: one step toward the end, capped at the last
/// element; a no-op on an empty sequence.
pub open spec fn spec_move_down(cursor: nat, len: nat) -> nat {
    if cursor + 1 < len {
        cursor + 1
    } else {
        cursor
    }
}

/// Moves a section's selection cursor up by one, floored at 0.
pub fn list_up(current_list: &mut usize)
    ensures
        *final(current_list) == spec_move_up(*old(current_list) as nat),
{
    if *current_list > 0 {
        *current_list -= 1;
    }
}

/// Moves a section's selection cursor down by one, capped at the last
/// element of `list`; a no-op when `list` is empty.
pub fn list_down(list: &Vec<String>, current_list: &mut usize)
    ensures
        *final(current_list) == spec_move_down(*old(current_list) as nat, list@.len()),
{
    if list.len() > 0 && *current_list < list.len() - 1 {
        *current_list += 1;
    }
}

/// One selection-cursor movement.
#[derive(Clone, Copy, PartialEq, Eq, Structural, Debug)]
pub enum Move {
    Up,
    Down,
}

/// The cursor after a sequence of movements, applied left to right.
pub open spec fn apply_moves(cursor: nat, len: nat, moves: Seq<Move>) -> nat
    decreases moves.len(),
{
    if moves.len() == 0 {
        cursor
    } else {
        let prev = apply_moves(cursor, len, moves.drop_last());
        match moves.last() {
            Move::Up => spec_move_up(prev),
            Move::Down => spec_move_down(prev, len),
        }
    }
}

/// Law: from any in-bounds starting cursor, every sequence of up and down
/// movements leaves the cursor within `0 <= cursor < max(len, 1)`, for every
/// sequence length, 0 included.
pub proof fn lemma_cursor_bounds(cursor: nat, len: nat, moves: Seq<Move>)
    requires
        cursor < cursor_bound(len),
    ensures
        apply_moves(cursor, len, moves) < cursor_bound(len),
    decreases moves.len(),
{
    if moves.len() > 0 {
        lemma_cursor_bounds(cursor, len, moves.drop_last());
    }
}

/// The cursor after its sequence shrank to `new_len`: clamped onto the last
/// element when it fell off a non-empty end, left as it was otherwise.
pub open spec fn spec_clamp(cursor: nat, new_len: nat) -> nat {
    if cursor >= new_len && new_len > 0 {
        (new_len - 1) as nat
    } else {
        cursor
    }
}

/// Moves the selected task of `list_src` to the end of `list_dest`.
///
/// When the cursor is in bounds, exactly the task under it leaves the
/// source, every other task keeps its relative order, the moved task becomes
/// the destination's new last element, and the two lengths together are
/// unchanged; the cursor is then clamped into the shrunk source when that is
/// non-empty, and kept (stale) when the source became empty. An
/// out-of-bounds cursor makes the whole call a no-op.
pub fn list_transfer(
    list_dest: &mut Vec<String>,
    list_src: &mut Vec<String>,
    current_src_list: &mut usize,
)
    ensures
        *old(current_src_list) < old(list_src)@.len() ==> ({
            &&& final(list_src)@ == old(list_src)@.remove(*old(current_src_list) as int)
            &&& final(list_dest)@ == old(list_dest)@.push(
                old(list_src)@[*old(current_src_list) as int],
            )
            &&& *final(current_src_list) == spec_clamp(
                *old(current_src_list) as nat,
                (old(list_src)@.len() - 1) as nat,
            )
            &&& final(list_src)@.len() + final(list_dest)@.len() == old(list_src)@.len() + old(
                list_dest,
            )@.len()
        }),
        *old(current_src_list) >= old(list_src)@.len() ==> ({
            &&& final(list_src)@ == old(list_src)@
            &&& final(list_dest)@ == old(list_dest)@
            &&& *final(current_src_list) == *old(current_src_list)
        }),
{
    if *current_src_list < list_src.len() {
        let item = list_src.remove(*current_src_list);
        list_dest.push(item);
        if *current_src_list >= list_src.len() && list_src.len() > 0 {
            *current_src_list = list_src.len() - 1;
        }
    }
}

/// One interaction-loop input event, as mapped from a key press.
#[derive(Clone, Copy, PartialEq, Eq, Structural, Debug)]
pub enum InputEvent {
    Quit,
    MoveUp,
    MoveDown,
    ToggleFocus,
    Confirm,
    Noop,
}

/// The event each key code stands for: quit, move up, move down, toggle
/// focus, confirm (transfer), and no-op for every other key.
pub open spec fn spec_key_event(key: char) -> InputEvent {
    if key == 'q' {
        InputEvent::Quit
    } else if key == 'u' {
        InputEvent::MoveUp
    } else if key == 'd' {
        InputEvent::MoveDown
    } else if key == '\t' {
        InputEvent::ToggleFocus
    } else if key == '\n' {
        InputEvent::Confirm
    } else {
        InputEvent::Noop
    }
}

/// Maps one pressed key to its interaction event.
pub fn key_event(key: char) -> (r: InputEvent)
    ensures
        r == spec_key_event(key),
{
    if key == 'q' {
        InputEvent::Quit
    } else if key == 'u' {
        InputEvent::MoveUp
    } else if key == 'd' {
        InputEvent::MoveDown
    } else if key == '\t' {
        InputEvent::ToggleFocus
    } else if key == '\n' {
        InputEvent::Confirm
    } else {
        InputEvent::Noop
    }
}

/// The whole application state the interaction loop threads through.
pub struct AppState {
    pub tasks: Vec<String>,
    pub dones: Vec<String>,
    pub task_cursor: usize,
    pub done_cursor: usize,
    pub focus: Focus,
    pub quit: bool,
}

/// The mathematical value of an `AppState`.
#[verifier::ext_equal]
pub struct StoreModel {
    pub tasks: Seq<String>,
    pub dones: Seq<String>,
    pub task_cursor: nat,
    pub done_cursor: nat,
    pub focus: Focus,
    pub quit: bool,
}

/// Transfer at the model level: the selected task of `src` moves to the end
/// of `dest` and the cursor is clamped into the shrunk source; out of
/// bounds, nothing changes.
pub open spec fn spec_transfer(dest: Seq<String>, src: Seq<String>, cursor: nat) -> (
    Seq<String>,
    Seq<String>,
    nat,
) {
    if cursor < src.len() {
        (
            dest.push(src[cursor as int]),
            src.remove(cursor as int),
            spec_clamp(cursor, (src.len() - 1) as nat),
        )
    } else {
        (dest, src, cursor)
    }
}

/// The interaction-loop transition relation: the state after dispatching
/// one event. Navigation and transfer act on the focused section; toggling
/// the focus touches no cursor; an unknown key changes nothing.
pub open spec fn spec_dispatch(m: StoreModel, ev: InputEvent) -> StoreModel {
    match ev {
        InputEvent::Quit => (StoreModel { quit: true, ..m }),
        InputEvent::MoveUp => match m.focus {
            Focus::PendingView => (StoreModel { task_cursor: spec_move_up(m.task_cursor), ..m }),
            Focus::DoneView => (StoreModel { done_cursor: spec_move_up(m.done_cursor), ..m }),
        },
        InputEvent::MoveDown => match m.focus {
            Focus::PendingView => (StoreModel {
                task_cursor: spec_move_down(m.task_cursor, m.tasks.len()),
                ..m
            }),
            Focus::DoneView => (StoreModel {
                done_cursor: spec_move_down(m.done_cursor, m.dones.len()),
                ..m
            }),
        },
        InputEvent::ToggleFocus => (StoreModel { focus: m.focus.spec_toggle(), ..m }),
        InputEvent::Confirm => match m.focus {
            Focus::PendingView => {
                let t = spec_transfer(m.dones, m.tasks, m.task_cursor);
                StoreModel { dones: t.0, tasks: t.1, task_cursor: t.2, ..m }
            },
            Focus::DoneView => {
                let t = spec_transfer(m.tasks, m.dones, m.done_cursor);
                StoreModel { tasks: t.0, dones: t.1, done_cursor: t.2, ..m }
            },
        },
        InputEvent::Noop => m,
    }
}

impl AppState {
    /// The state's mathematical value.
    pub open spec fn model(self) -> StoreModel {
        StoreModel {
            tasks: self.tasks@,
            dones: self.dones@,
            task_cursor: self.task_cursor as nat,
            done_cursor: self.done_cursor as nat,
            focus: self.focus,
            quit: self.quit,
        }
    }

    /// A freshly loaded state: both cursors at 0, pending focused, running.
    pub fn new(tasks: Vec<String>, dones: Vec<String>) -> (r: AppState)
        ensures
            r.tasks@ == tasks@,
            r.dones@ == dones@,
            r.task_cursor == 0,
            r.done_cursor == 0,
            r.focus == Focus::PendingView,
            !r.quit,
    {
        AppState {
            tasks,
            dones,
            task_cursor: 0,
            done_cursor: 0,
            focus: Focus::PendingView,
            quit: false,
        }
    }

    /// Applies one input event: the interaction loop's dispatch step.
    pub fn dispatch(&mut self, ev: InputEvent)
        ensures
            final(self).model() == spec_dispatch(old(self).model(), ev),
    {
        let ghost pre = self.model();
        match ev {
            InputEvent::Quit => {
                self.quit = true;
            },
            InputEvent::MoveUp => match self.focus {
                Focus::PendingView => list_up(&mut self.task_cursor),
                Focus::DoneView => list_up(&mut self.done_cursor),
            },
            InputEvent::MoveDown => match self.focus {
                Focus::PendingView => list_down(&self.tasks, &mut self.task_cursor),
                Focus::DoneView => list_down(&self.dones, &mut self.done_cursor),
            },
            InputEvent::ToggleFocus => {
                self.focus = self.focus.toggle();
            },
            InputEvent::Confirm => match self.focus {
                Focus::PendingView => list_transfer(
                    &mut self.dones,
                    &mut self.tasks,
                    &mut self.task_cursor,
                ),
                Focus::DoneView => list_transfer(
                    &mut self.tasks,
                    &mut self.dones,
                    &mut self.done_cursor,
                ),
            },
            InputEvent::Noop => {},
        }
        proof {
            assert(self.model() =~= spec_dispatch(pre, ev));
        }
    }
}

} // verus!

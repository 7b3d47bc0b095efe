//! Immediate-mode frame painter: records one frame's paint commands from the
//! current task store state; the terminal driver replays them.

use vstd::prelude::*;
use crate::store::AppState;
use crate::store::Focus;
use crate::store::StoreModel;

verus! {

/// The two color pairs used by the painter: `Highlighted` inverts
/// `Regular`'s foreground and background to mark the selected element.
#[derive(Clone, Copy, PartialEq, Eq, Structural, Debug)]
pub enum ColorPair {
    Regular,
    Highlighted,
}

/// One recorded paint command: text to draw at a row and column in a color.
pub struct PaintCmd {
    pub row: usize,
    pub col: usize,
    pub text: String,
    pub pair: ColorPair,
}

/// The mathematical value of a paint command.
#[verifier::ext_equal]
pub struct PaintCmdModel {
    pub row: nat,
    pub col: nat,
    pub text: Seq<char>,
    pub pair: ColorPair,
}

impl PaintCmd {
    /// The command's mathematical value.
    pub open spec fn model(self) -> PaintCmdModel {
        PaintCmdModel {
            row: self.row as nat,
            col: self.col as nat,
            text: self.text@,
            pair: self.pair,
        }
    }
}

/// A rejected call of the list-scope protocol.
#[derive(Clone, Copy, PartialEq, Eq, Structural, Debug)]
pub enum UiError {
    /// `begin_list` while a list scope is already open: lists do not nest.
    NestedList,
    /// `element` outside an open list scope.
    OutsideList,
}

/// The immediate-mode painter's per-frame state: the paint cursor, the open
/// list scope with its selected element id, and the frame's recorded paint
/// commands.
pub struct Ui {
    pub current_list: Option<usize>,
    pub row: usize,
    pub col: usize,
    pub cmds: Vec<PaintCmd>,
}

impl Ui {
    /// The frame painted so far, as a sequence of command values.
    pub open spec fn painted(self) -> Seq<PaintCmdModel> {
        self.cmds@.map_values(|c: PaintCmd| c.model())
    }

    /// Opens a frame: resets the paint cursor to the given origin and starts
    /// recording afresh.
    pub fn begin(&mut self, row: usize, col: usize)
        ensures
            final(self).row == row,
            final(self).col == col,
            final(self).current_list == old(self).current_list,
            final(self).painted() == Seq::<PaintCmdModel>::empty(),
    {
        self.row = row;
        self.col = col;
        self.cmds.clear();
        proof {
            assert(self.painted() =~= Seq::<PaintCmdModel>::empty());
        }
    }

    /// Paints one row of text in the given color and advances the paint
    /// cursor one row; usable before and after list scopes for headers.
    pub fn label(&mut self, text: &str, pair: ColorPair)
        requires
            old(self).row < usize::MAX,
        ensures
            final(self).row == old(self).row + 1,
            final(self).col == old(self).col,
            final(self).current_list == old(self).current_list,
            final(self).painted() == old(self).painted().push(
                (PaintCmdModel {
                    row: old(self).row as nat,
                    col: old(self).col as nat,
                    text: text@,
                    pair,
                }),
            ),
    {
        let cmd = PaintCmd { row: self.row, col: self.col, text: String::from_str(text), pair };
        self.cmds.push(cmd);
        self.row = self.row + 1;
        proof {
            assert(self.painted() =~= old(self).painted().push(
                PaintCmdModel {
                    row: old(self).row as nat,
                    col: old(self).col as nat,
                    text: text@,
                    pair,
                },
            ));
        }
    }

    /// Opens the frame's list scope, recording which element id is selected.
    /// Rejected, with nothing changed, when a list scope is already open:
    /// lists do not nest.
    pub fn begin_list(&mut self, id: usize) -> (r: Result<(), UiError>)
        ensures
            old(self).current_list is Some ==> r == Err::<(), UiError>(UiError::NestedList)
                && *final(self) == *old(self),
            old(self).current_list is None ==> ({
                &&& r == Ok::<(), UiError>(())
                &&& final(self).current_list == Some(id)
                &&& final(self).row == old(self).row
                &&& final(self).col == old(self).col
                &&& final(self).painted() == old(self).painted()
            }),
    {
        if self.current_list.is_some() {
            Err(UiError::NestedList)
        } else {
            self.current_list = Some(id);
            Ok(())
        }
    }

    /// Paints one list element: highlighted exactly when its id is the open
    /// list's selected id, regular otherwise; advances one row; reports the
    /// element as not consumed. Rejected, with nothing changed, outside an
    /// open list scope.
    pub fn element(&mut self, label_text: &str, id: usize) -> (r: Result<bool, UiError>)
        requires
            old(self).row < usize::MAX,
        ensures
            old(self).current_list is None ==> r == Err::<bool, UiError>(UiError::OutsideList)
                && *final(self) == *old(self),
            old(self).current_list matches Some(sel) ==> ({
                &&& r == Ok::<bool, UiError>(false)
                &&& final(self).current_list == old(self).current_list
                &&& final(self).row == old(self).row + 1
                &&& final(self).col == old(self).col
                &&& final(self).painted() == old(self).painted().push(
                    (PaintCmdModel {
                        row: old(self).row as nat,
                        col: old(self).col as nat,
                        text: label_text@,
                        pair: if id == sel {
                            ColorPair::Highlighted
                        } else {
                            ColorPair::Regular
                        },
                    }),
                )
            }),
    {
        let current_id = match self.current_list {
            Some(current_id) => current_id,
            None => {
                return Err(UiError::OutsideList);
            },
        };
        let pair = if current_id == id {
            ColorPair::Highlighted
        } else {
            ColorPair::Regular
        };
        self.label(label_text, pair);
        Ok(false)
    }

    /// Closes the open list scope, clearing the selected-id state so a new
    /// list may be opened next frame.
    pub fn end_list(&mut self)
        ensures
            final(self).current_list is None,
            final(self).row == old(self).row,
            final(self).col == old(self).col,
            final(self).painted() == old(self).painted(),
    {
        self.current_list = None;
    }

    /// Closes the frame. A hook reserved for frame-level teardown; paints
    /// nothing.
    pub fn end(&mut self)
        ensures
            *final(self) == *old(self),
    {
    }
}

impl Default for Ui {
    /// A painter with no open list scope, the paint cursor at the origin,
    /// and no recorded commands.
    fn default() -> (r: Ui)
        ensures
            r.current_list is None,
            r.row == 0,
            r.col == 0,
            r.painted() == Seq::<PaintCmdModel>::empty(),
    {
        let r = Ui { current_list: None, row: 0, col: 0, cmds: Vec::new() };
        proof {
            assert(r.painted() =~= Seq::<PaintCmdModel>::empty());
        }
        r
    }
}

/// The command that paints one list element: marker and title at the given
/// row, highlighted exactly when the element is the selected one.
pub open spec fn element_row(marker: Seq<char>, title: Seq<char>, row: nat, selected: bool) -> PaintCmdModel {
    PaintCmdModel {
        row,
        col: 0,
        text: marker + title,
        pair: if selected {
            ColorPair::Highlighted
        } else {
            ColorPair::Regular
        },
    }
}

/// The two header rows a frame opens with: the section's heading, then a
/// blank spacer row.
pub open spec fn header_rows(heading: Seq<char>) -> Seq<PaintCmdModel> {
    seq![
        (PaintCmdModel { row: 0, col: 0, text: heading, pair: ColorPair::Regular }),
        (PaintCmdModel { row: 1, col: 0, text: "\n"@, pair: ColorPair::Regular }),
    ]
}

/// One row per title, from row 2 down, the row at `cursor` highlighted.
pub open spec fn task_rows(titles: Seq<String>, marker: Seq<char>, cursor: nat) -> Seq<PaintCmdModel> {
    Seq::new(titles.len(), |i: int| element_row(marker, titles[i]@, (2 + i) as nat, i == cursor))
}

/// The full frame for one state: the focused section's header, then that
/// section's tasks, marked `- [ ]` when pending and `- [x]` when done, with
/// the row under the section's cursor highlighted.
pub open spec fn spec_frame(m: StoreModel) -> Seq<PaintCmdModel> {
    match m.focus {
        Focus::PendingView => header_rows("ToDo :"@) + task_rows(
            m.tasks,
            "- [ ] "@,
            m.task_cursor,
        ),
        Focus::DoneView => header_rows("Finished tasks :"@) + task_rows(
            m.dones,
            "- [x] "@,
            m.done_cursor,
        ),
    }
}

/// Paints one full frame from the current state: opens the frame at the
/// origin, paints the focused section's header and its tasks with the
/// cursor's row highlighted, and closes the list scope again.
pub fn render_frame(ui: &mut Ui, state: &AppState)
    requires
        old(ui).current_list is None,
        state.tasks@.len() + 2 < usize::MAX,
        state.dones@.len() + 2 < usize::MAX,
    ensures
        final(ui).current_list is None,
        final(ui).painted() == spec_frame(state.model()),
{
    ui.begin(0, 0);
    match state.focus {
        Focus::PendingView => {
            match ui.begin_list(state.task_cursor) {
                Ok(_) => {},
                Err(_) => unreached(),
            }
            ui.label("ToDo :", ColorPair::Regular);
            ui.label("\n", ColorPair::Regular);
            proof {
                assert(ui.painted() =~= header_rows("ToDo :"@) + task_rows(
                    state.tasks@.take(0),
                    "- [ ] "@,
                    state.task_cursor as nat,
                ));
            }
            let mut index: usize = 0;
            while index < state.tasks.len()
                invariant
                    index <= state.tasks@.len(),
                    state.tasks@.len() + 2 < usize::MAX,
                    ui.current_list == Some(state.task_cursor),
                    ui.row == 2 + index,
                    ui.col == 0,
                    ui.painted() == header_rows("ToDo :"@) + task_rows(
                        state.tasks@.take(index as int),
                        "- [ ] "@,
                        state.task_cursor as nat,
                    ),
                decreases state.tasks@.len() - index,
            {
                let mut text = String::from_str("- [ ] ");
                text.append(state.tasks[index].as_str());
                match ui.element(text.as_str(), index) {
                    Ok(_) => {},
                    Err(_) => unreached(),
                }
                proof {
                    assert(ui.painted() =~= header_rows("ToDo :"@) + task_rows(
                        state.tasks@.take(index + 1),
                        "- [ ] "@,
                        state.task_cursor as nat,
                    ));
                }
                index += 1;
            }
            ui.end_list();
            proof {
                assert(state.tasks@.take(state.tasks@.len() as int) =~= state.tasks@);
            }
        },
        Focus::DoneView => {
            ui.label("Finished tasks :", ColorPair::Regular);
            ui.label("\n", ColorPair::Regular);
            match ui.begin_list(state.done_cursor) {
                Ok(_) => {},
                Err(_) => unreached(),
            }
            proof {
                assert(ui.painted() =~= header_rows("Finished tasks :"@) + task_rows(
                    state.dones@.take(0),
                    "- [x] "@,
                    state.done_cursor as nat,
                ));
            }
            let mut index: usize = 0;
            while index < state.dones.len()
                invariant
                    index <= state.dones@.len(),
                    state.dones@.len() + 2 < usize::MAX,
                    ui.current_list == Some(state.done_cursor),
                    ui.row == 2 + index,
                    ui.col == 0,
                    ui.painted() == header_rows("Finished tasks :"@) + task_rows(
                        state.dones@.take(index as int),
                        "- [x] "@,
                        state.done_cursor as nat,
                    ),
                decreases state.dones@.len() - index,
            {
                let mut text = String::from_str("- [x] ");
                text.append(state.dones[index].as_str());
                match ui.element(text.as_str(), index) {
                    Ok(_) => {},
                    Err(_) => unreached(),
                }
                proof {
                    assert(ui.painted() =~= header_rows("Finished tasks :"@) + task_rows(
                        state.dones@.take(index + 1),
                        "- [x] "@,
                        state.done_cursor as nat,
                    ));
                }
                index += 1;
            }
            ui.end_list();
            proof {
                assert(state.dones@.take(state.dones@.len() as int) =~= state.dones@);
            }
        },
    }
    ui.end();
}

} // verus!

use task_tracker::store::{AppState, Focus, InputEvent};
use task_tracker::ui::{render_frame, ColorPair, Ui, UiError};

fn strings(items: &[&str]) -> Vec<String> {
    items.iter().map(|s| s.to_string()).collect()
}

#[test]
fn element_outside_list_rejected() {
    let mut ui = Ui::default();
    ui.begin(0, 0);
    assert_eq!(ui.element("- [ ] stray", 0), Err(UiError::OutsideList));
    assert!(ui.cmds.is_empty());
    assert_eq!(ui.row, 0);
}

#[test]
fn nested_list_rejected() {
    let mut ui = Ui::default();
    ui.begin(0, 0);
    assert_eq!(ui.begin_list(0), Ok(()));
    assert_eq!(ui.begin_list(1), Err(UiError::NestedList));
    assert_eq!(ui.current_list, Some(0));
}

#[test]
fn end_list_allows_a_new_list() {
    let mut ui = Ui::default();
    ui.begin(0, 0);
    assert_eq!(ui.begin_list(0), Ok(()));
    ui.end_list();
    assert_eq!(ui.begin_list(1), Ok(()));
    assert_eq!(ui.current_list, Some(1));
}

#[test]
fn element_is_never_consumed() {
    let mut ui = Ui::default();
    ui.begin(0, 0);
    assert_eq!(ui.begin_list(0), Ok(()));
    assert_eq!(ui.element("- [ ] a", 0), Ok(false));
    assert_eq!(ui.element("- [ ] b", 1), Ok(false));
}

#[test]
fn element_highlights_only_selected_id() {
    let mut ui = Ui::default();
    ui.begin(0, 0);
    assert_eq!(ui.begin_list(1), Ok(()));
    assert_eq!(ui.element("- [ ] a", 0), Ok(false));
    assert_eq!(ui.element("- [ ] b", 1), Ok(false));
    assert_eq!(ui.element("- [ ] c", 2), Ok(false));
    let pairs: Vec<ColorPair> = ui.cmds.iter().map(|c| c.pair).collect();
    assert_eq!(pairs, vec![ColorPair::Regular, ColorPair::Highlighted, ColorPair::Regular]);
}

#[test]
fn label_advances_one_row() {
    let mut ui = Ui::default();
    ui.begin(3, 2);
    ui.label("header", ColorPair::Regular);
    ui.label("next", ColorPair::Highlighted);
    assert_eq!(ui.row, 5);
    assert_eq!(ui.cmds.len(), 2);
    assert_eq!(ui.cmds[0].row, 3);
    assert_eq!(ui.cmds[0].col, 2);
    assert_eq!(ui.cmds[0].text, "header");
    assert_eq!(ui.cmds[0].pair, ColorPair::Regular);
    assert_eq!(ui.cmds[1].row, 4);
    assert_eq!(ui.cmds[1].pair, ColorPair::Highlighted);
}

#[test]
fn begin_starts_a_fresh_frame() {
    let mut ui = Ui::default();
    ui.begin(0, 0);
    ui.label("old frame", ColorPair::Regular);
    ui.begin(0, 0);
    assert!(ui.cmds.is_empty());
    assert_eq!(ui.row, 0);
}

#[test]
fn pending_frame_paints_header_and_tasks() {
    let state = AppState::new(strings(&["buy milk", "pay bills"]), strings(&["walk dog"]));
    let mut ui = Ui::default();
    render_frame(&mut ui, &state);
    let texts: Vec<&str> = ui.cmds.iter().map(|c| c.text.as_str()).collect();
    assert_eq!(texts, vec!["ToDo :", "\n", "- [ ] buy milk", "- [ ] pay bills"]);
    let rows: Vec<usize> = ui.cmds.iter().map(|c| c.row).collect();
    assert_eq!(rows, vec![0, 1, 2, 3]);
    let pairs: Vec<ColorPair> = ui.cmds.iter().map(|c| c.pair).collect();
    assert_eq!(
        pairs,
        vec![ColorPair::Regular, ColorPair::Regular, ColorPair::Highlighted, ColorPair::Regular]
    );
    assert_eq!(ui.current_list, None);
}

#[test]
fn done_frame_paints_done_tasks_with_cursor() {
    let mut state = AppState::new(strings(&["a"]), strings(&["walk dog", "mow lawn"]));
    state.dispatch(InputEvent::ToggleFocus);
    state.dispatch(InputEvent::MoveDown);
    assert_eq!(state.focus, Focus::DoneView);
    let mut ui = Ui::default();
    render_frame(&mut ui, &state);
    let texts: Vec<&str> = ui.cmds.iter().map(|c| c.text.as_str()).collect();
    assert_eq!(texts, vec!["Finished tasks :", "\n", "- [x] walk dog", "- [x] mow lawn"]);
    let pairs: Vec<ColorPair> = ui.cmds.iter().map(|c| c.pair).collect();
    assert_eq!(
        pairs,
        vec![ColorPair::Regular, ColorPair::Regular, ColorPair::Regular, ColorPair::Highlighted]
    );
}

#[test]
fn empty_pending_frame_is_header_only() {
    let state = AppState::new(Vec::new(), Vec::new());
    let mut ui = Ui::default();
    render_frame(&mut ui, &state);
    let texts: Vec<&str> = ui.cmds.iter().map(|c| c.text.as_str()).collect();
    assert_eq!(texts, vec!["ToDo :", "\n"]);
}

use task_tracker::codec::{encode_item, load_lines, parse_item, save_lines, ParseError, Section};

fn strings(items: &[&str]) -> Vec<String> {
    items.iter().map(|s| s.to_string()).collect()
}

#[test]
fn encode_pending_exact() {
    assert_eq!(encode_item(Section::Pending, "buy milk"), "TODO: buy milk");
}

#[test]
fn encode_done_exact() {
    assert_eq!(encode_item(Section::Done, "walk dog"), "DONE: walk dog");
}

#[test]
fn parse_pending_line() {
    let r = parse_item("TODO: buy milk");
    assert_eq!(r, Some((Section::Pending, "buy milk".to_string())));
}

#[test]
fn parse_done_line() {
    let r = parse_item("DONE: walk dog");
    assert_eq!(r, Some((Section::Done, "walk dog".to_string())));
}

#[test]
fn parse_empty_title() {
    assert_eq!(parse_item("TODO: "), Some((Section::Pending, String::new())));
}

#[test]
fn parse_rejects_unprefixed_line() {
    assert_eq!(parse_item("buy milk"), None);
}

#[test]
fn parse_rejects_short_line() {
    assert_eq!(parse_item("TODO:"), None);
}

#[test]
fn parse_rejects_lowercase_prefix() {
    assert_eq!(parse_item("todo: buy milk"), None);
}

#[test]
fn round_trip_both_sections() {
    for section in [Section::Pending, Section::Done] {
        let title = "water the plants";
        let line = encode_item(section, title);
        assert_eq!(parse_item(&line), Some((section, title.to_string())));
    }
}

#[test]
fn load_splits_sections_in_order() {
    let lines = strings(&["TODO: buy milk", "TODO: pay bills", "DONE: walk dog"]);
    let (tasks, dones) = load_lines(&lines).expect("well-formed file");
    assert_eq!(tasks, strings(&["buy milk", "pay bills"]));
    assert_eq!(dones, strings(&["walk dog"]));
}

#[test]
fn load_keeps_interleaved_order() {
    let lines = strings(&["DONE: a", "TODO: b", "DONE: c", "TODO: d"]);
    let (tasks, dones) = load_lines(&lines).expect("well-formed file");
    assert_eq!(tasks, strings(&["b", "d"]));
    assert_eq!(dones, strings(&["a", "c"]));
}

#[test]
fn load_empty_file() {
    let (tasks, dones) = load_lines(&Vec::new()).expect("empty file is well-formed");
    assert!(tasks.is_empty());
    assert!(dones.is_empty());
}

#[test]
fn malformed_line_reported() {
    let lines = strings(&["buy milk"]);
    assert_eq!(load_lines(&lines), Err(ParseError { line_number: 1 }));
}

#[test]
fn malformed_line_reported_by_position() {
    let lines = strings(&["TODO: ok", "DONE: ok", "nope"]);
    assert_eq!(load_lines(&lines), Err(ParseError { line_number: 3 }));
}

#[test]
fn save_writes_pending_then_done() {
    let tasks = strings(&["buy milk"]);
    let dones = strings(&["walk dog", "pay bills"]);
    assert_eq!(save_lines(&tasks, &dones), "TODO: buy milk\nDONE: walk dog\nDONE: pay bills\n");
}

#[test]
fn save_empty_store() {
    assert_eq!(save_lines(&Vec::new(), &Vec::new()), "");
}

#[test]
fn save_then_load_round_trip() {
    let tasks = strings(&["one", "two"]);
    let dones = strings(&["three"]);
    let text = save_lines(&tasks, &dones);
    let lines: Vec<String> = text.lines().map(|l| l.to_string()).collect();
    let (tasks2, dones2) = load_lines(&lines).expect("saved file loads back");
    assert_eq!(tasks2, tasks);
    assert_eq!(dones2, dones);
}

use heard::command::{parse_command, Command};
use heard::note::Note;
use heard::ops::{add, edit_by_index, icon_for_category, list, remove_by_index, IndexError, ListEntry};
use heard::session::{execute, Outcome};
use heard::store::{notes_or_empty, LoadError, STORE_DIR, STORE_FILE};

fn args(words: &[&str]) -> Vec<String> {
    let mut v = vec!["heard".to_string()];
    for w in words {
        v.push(w.to_string());
    }
    v
}

fn note(text: &str, category: &str) -> Note {
    Note::new(text.to_string(), category.to_string())
}

fn pairs(entries: &[ListEntry]) -> Vec<(usize, String, String)> {
    entries
        .iter()
        .map(|e| (e.index, e.note.text.clone(), e.note.category.clone()))
        .collect()
}

fn contents(notes: &[Note]) -> Vec<(String, String)> {
    notes.iter().map(|n| (n.text.clone(), n.category.clone())).collect()
}

fn run(notes: &mut Vec<Note>, words: &[&str]) -> Outcome {
    execute(parse_command(&args(words)), notes)
}

fn listed(outcome: Outcome) -> Vec<(usize, String, String)> {
    match outcome {
        Outcome::Listed { entries } => pairs(&entries),
        _ => panic!("expected a listing"),
    }
}

fn two_note_store() -> Vec<Note> {
    let mut notes = notes_or_empty(Err(LoadError::Absent));
    assert!(matches!(run(&mut notes, &["\"Buy milk\"", ":", "shopping"]), Outcome::Added));
    assert!(matches!(run(&mut notes, &["\"Finish report\"", ":", "work"]), Outcome::Added));
    notes
}

#[test]
fn scenario_add_two_then_list_all() {
    let mut notes = two_note_store();
    let lines = listed(run(&mut notes, &["--list"]));
    assert_eq!(
        lines,
        vec![
            (1, "Buy milk".to_string(), "shopping".to_string()),
            (2, "Finish report".to_string(), "work".to_string()),
        ]
    );
    assert_eq!(icon_for_category(&lines[0].2), "\u{1F6CD}\u{FE0F}");
    assert_eq!(icon_for_category(&lines[1].2), "\u{1F4BC}");
}

#[test]
fn scenario_list_work_reindexes() {
    let mut notes = two_note_store();
    let lines = listed(run(&mut notes, &["--list", "work"]));
    assert_eq!(lines, vec![(1, "Finish report".to_string(), "work".to_string())]);
}

#[test]
fn scenario_remove_first_then_list() {
    let mut notes = two_note_store();
    assert!(matches!(run(&mut notes, &["--remove", "1"]), Outcome::Removed));
    let lines = listed(run(&mut notes, &["-l"]));
    assert_eq!(lines, vec![(1, "Finish report".to_string(), "work".to_string())]);
}

#[test]
fn scenario_edit_out_of_range() {
    let mut notes = two_note_store();
    let before = contents(&notes);
    assert!(matches!(edit_by_index(&mut notes, 5, "x".to_string(), "y".to_string()), Err(IndexError::OutOfRange)));
    assert_eq!(contents(&notes), before);
    assert!(matches!(run(&mut notes, &["--edit", "6", "x", ":", "y"]), Outcome::NoSuchNote));
    assert_eq!(contents(&notes), before);
}

#[test]
fn add_appends_at_end() {
    let mut notes = vec![note("a", "x")];
    add(&mut notes, "b".to_string(), "y".to_string());
    assert_eq!(contents(&notes), vec![("a".to_string(), "x".to_string()), ("b".to_string(), "y".to_string())]);
}

#[test]
fn add_keeps_unicode_and_empty_category() {
    let mut notes = Vec::new();
    add(&mut notes, "caf\u{e9} \u{1F600}".to_string(), String::new());
    assert_eq!(contents(&notes), vec![("caf\u{e9} \u{1F600}".to_string(), String::new())]);
}

#[test]
fn edit_in_range_keeps_position() {
    let mut notes = vec![note("a", "x"), note("b", "y"), note("c", "z")];
    assert!(edit_by_index(&mut notes, 1, "B".to_string(), "w".to_string()).is_ok());
    assert_eq!(
        contents(&notes),
        vec![
            ("a".to_string(), "x".to_string()),
            ("B".to_string(), "w".to_string()),
            ("c".to_string(), "z".to_string()),
        ]
    );
}

#[test]
fn edit_at_length_is_out_of_range() {
    let mut notes = vec![note("a", "x")];
    assert!(edit_by_index(&mut notes, 1, "B".to_string(), "w".to_string()).is_err());
    assert_eq!(contents(&notes), vec![("a".to_string(), "x".to_string())]);
}

#[test]
fn remove_shifts_later_notes() {
    let mut notes = vec![note("a", "x"), note("b", "y"), note("c", "z")];
    assert!(remove_by_index(&mut notes, 1).is_ok());
    assert_eq!(contents(&notes), vec![("a".to_string(), "x".to_string()), ("c".to_string(), "z".to_string())]);
}

#[test]
fn remove_out_of_range_changes_nothing() {
    let mut notes = vec![note("a", "x")];
    assert!(matches!(remove_by_index(&mut notes, 1), Err(IndexError::OutOfRange)));
    assert_eq!(contents(&notes), vec![("a".to_string(), "x".to_string())]);
    let mut empty: Vec<Note> = Vec::new();
    assert!(remove_by_index(&mut empty, 0).is_err());
}

#[test]
fn list_filter_is_exact_and_ordered() {
    let notes = vec![note("a", "work"), note("b", "Work"), note("c", "work "), note("d", "work")];
    let filter = "work".to_string();
    assert_eq!(
        pairs(&list(&notes, Some(&filter))),
        vec![(1, "a".to_string(), "work".to_string()), (2, "d".to_string(), "work".to_string())]
    );
    assert_eq!(pairs(&list(&notes, None)).len(), 4);
}

#[test]
fn list_twice_is_identical() {
    let notes = vec![note("a", "x"), note("b", "y")];
    assert_eq!(pairs(&list(&notes, None)), pairs(&list(&notes, None)));
}

#[test]
fn list_of_empty_store() {
    let mut notes: Vec<Note> = Vec::new();
    assert!(matches!(run(&mut notes, &["--list"]), Outcome::NoNotes));
    assert!(matches!(run(&mut notes, &["--list", "work"]), Outcome::NoNotes));
}

#[test]
fn list_without_match() {
    let mut notes = vec![note("a", "x")];
    match run(&mut notes, &["--list", "y"]) {
        Outcome::NoMatch { category } => assert_eq!(category, Some("y".to_string())),
        _ => panic!("expected no match"),
    }
}

#[test]
fn icons_by_category() {
    assert_eq!(icon_for_category(&"shopping".to_string()), "\u{1F6CD}\u{FE0F}");
    assert_eq!(icon_for_category(&"work".to_string()), "\u{1F4BC}");
    assert_eq!(icon_for_category(&"personal".to_string()), "\u{1F31F}");
    assert_eq!(icon_for_category(&"study".to_string()), "\u{1F4DA}");
    assert_eq!(icon_for_category(&"Work".to_string()), "\u{1F4DD}");
    assert_eq!(icon_for_category(&String::new()), "\u{1F4DD}");
}

#[test]
fn parse_usage_shapes() {
    assert!(matches!(parse_command(&args(&[])), Command::Usage));
    assert!(matches!(parse_command(&args(&["text"])), Command::AddUsage));
    assert!(matches!(parse_command(&args(&["text", "-", "cat"])), Command::AddUsage));
    assert!(matches!(parse_command(&args(&["--edit", "1", "t", ":"])), Command::EditUsage));
    assert!(matches!(parse_command(&args(&["--edit", "1", ":", "t", "c"])), Command::EditUsage));
    assert!(matches!(parse_command(&args(&["--remove"])), Command::RemoveUsage));
}

#[test]
fn parse_add_strips_quotes() {
    match parse_command(&args(&["\"\"Buy milk\"", ":", "shopping", "extra"])) {
        Command::Add { text, category } => {
            assert_eq!(text, "Buy milk");
            assert_eq!(category, "shopping");
        }
        _ => panic!("expected add"),
    }
}

#[test]
fn parse_edit_and_remove() {
    match parse_command(&args(&["--edit", "+2", "\"new\"", ":", "work"])) {
        Command::Edit { position, text, category } => {
            assert_eq!(position, 2);
            assert_eq!(text, "new");
            assert_eq!(category, "work");
        }
        _ => panic!("expected edit"),
    }
    assert!(matches!(parse_command(&args(&["--r", "3"])), Command::Remove { position: 3 }));
    assert!(matches!(parse_command(&args(&["--remove", "12"])), Command::Remove { position: 12 }));
}

#[test]
fn parse_bad_indices() {
    assert!(matches!(parse_command(&args(&["--remove", "one"])), Command::BadRemoveIndex));
    assert!(matches!(parse_command(&args(&["--remove", "-1"])), Command::BadRemoveIndex));
    assert!(matches!(parse_command(&args(&["--remove", " 1"])), Command::BadRemoveIndex));
    assert!(matches!(
        parse_command(&args(&["--remove", "99999999999999999999999999"])),
        Command::BadRemoveIndex
    ));
    assert!(matches!(parse_command(&args(&["--edit", "x", "t", ":", "c"])), Command::BadEditIndex));
}

#[test]
fn parse_list_filter() {
    match parse_command(&args(&["-l", "study"])) {
        Command::List { filter } => assert_eq!(filter, Some("study".to_string())),
        _ => panic!("expected list"),
    }
    assert!(matches!(parse_command(&args(&["--list"])), Command::List { filter: None }));
}

#[test]
fn position_zero_names_no_note() {
    let mut notes = vec![note("a", "x")];
    assert!(matches!(run(&mut notes, &["--remove", "0"]), Outcome::NoSuchNote));
    assert!(matches!(run(&mut notes, &["--edit", "0", "t", ":", "c"]), Outcome::NoSuchNote));
    assert_eq!(contents(&notes), vec![("a".to_string(), "x".to_string())]);
}

#[test]
fn edit_through_command() {
    let mut notes = two_note_store();
    assert!(matches!(run(&mut notes, &["--edit", "2", "\"Send report\"", ":", "personal"]), Outcome::Edited));
    assert_eq!(
        contents(&notes),
        vec![
            ("Buy milk".to_string(), "shopping".to_string()),
            ("Send report".to_string(), "personal".to_string()),
        ]
    );
}

#[test]
fn failed_loads_give_empty_store() {
    assert!(notes_or_empty(Err(LoadError::Absent)).is_empty());
    assert!(notes_or_empty(Err(LoadError::Unreadable)).is_empty());
    assert!(notes_or_empty(Err(LoadError::Corrupt)).is_empty());
    let kept = notes_or_empty(Ok(vec![note("a", "x")]));
    assert_eq!(contents(&kept), vec![("a".to_string(), "x".to_string())]);
}

#[test]
fn store_location_names() {
    assert_eq!(STORE_DIR, ".heard");
    assert_eq!(STORE_FILE, "notes.json");
}

use reminders_sc::{
    parse_completion, parse_due_date, DueDate, Extent, IsCompleted, Reminder, Timestamp, TodoObj,
};

fn todo(title: &str, done: &str, tags: &[&str], note: &str) -> TodoObj {
    TodoObj::from_payload(
        title.to_string(),
        done,
        "",
        "Inbox".to_string(),
        tags.iter().map(|t| t.to_string()).collect(),
        note.to_string(),
    )
    .unwrap()
}

#[test]
fn format_tags_empty() {
    assert_eq!(todo("a", "No", &[], "").format_tags(), "");
}

#[test]
fn format_tags_two() {
    assert_eq!(todo("a", "No", &["a", "b"], "").format_tags(), "#a, #b");
}

#[test]
fn format_tags_one() {
    assert_eq!(todo("a", "No", &["work"], "").format_tags(), "#work");
}

#[test]
fn parse_completion_yes() {
    assert_eq!(parse_completion("Yes"), IsCompleted::YES);
}

#[test]
fn parse_completion_empty() {
    assert_eq!(parse_completion(""), IsCompleted::NO);
}

#[test]
fn parse_completion_is_case_sensitive() {
    assert_eq!(parse_completion("yes"), IsCompleted::NO);
    assert_eq!(parse_completion("Yes "), IsCompleted::NO);
}

#[test]
fn completion_texts() {
    assert_eq!(IsCompleted::YES.as_icon(), "[x]");
    assert_eq!(IsCompleted::NO.as_icon(), "[ ]");
    assert_eq!(IsCompleted::YES.as_string(), "Completed");
    assert_eq!(IsCompleted::NO.as_string(), "Uncompleted");
}

#[test]
fn parse_due_date_empty() {
    assert_eq!(parse_due_date(""), Ok(DueDate::Unset));
}

#[test]
fn parse_due_date_valid() {
    let expected = Timestamp { year: 2024, month: 1, day: 5, hour: 14, minute: 30 };
    assert_eq!(parse_due_date("Jan 5, 2024 14:30"), Ok(DueDate::Date(expected)));
}

#[test]
fn parse_due_date_two_digit_day() {
    let expected = Timestamp { year: 2023, month: 12, day: 31, hour: 0, minute: 5 };
    assert_eq!(parse_due_date("Dec 31, 2023 00:05"), Ok(DueDate::Date(expected)));
}

#[test]
fn parse_due_date_garbage() {
    let e = parse_due_date("garbage").unwrap_err();
    assert_eq!(e.text, "garbage");
    assert!(!e.reason.is_empty());
}

#[test]
fn parse_due_date_out_of_range_hour() {
    assert!(parse_due_date("Jan 5, 2024 25:30").is_err());
}

#[test]
fn from_payload_reads_fields() {
    let t = TodoObj::from_payload(
        "Buy milk".to_string(),
        "Yes",
        "Feb 2, 2022 09:15",
        "Shop".to_string(),
        vec!["x".to_string()],
        "n".to_string(),
    )
    .unwrap();
    assert_eq!(t.title, "Buy milk");
    assert_eq!(t.is_completed, IsCompleted::YES);
    assert_eq!(
        t.due_date,
        DueDate::Date(Timestamp { year: 2022, month: 2, day: 2, hour: 9, minute: 15 })
    );
    assert_eq!(t.list, "Shop");
}

#[test]
fn from_payload_lenient_completion() {
    let t = todo("a", "maybe", &[], "");
    assert_eq!(t.is_completed, IsCompleted::NO);
    assert_eq!(t.due_date, DueDate::Unset);
}

#[test]
fn from_payload_bad_date_fails() {
    let r = TodoObj::from_payload(
        "a".to_string(),
        "Yes",
        "tomorrow",
        "l".to_string(),
        vec![],
        String::new(),
    );
    assert_eq!(r.unwrap_err().text, "tomorrow");
}

#[test]
fn new_empty_record() {
    let t = TodoObj::new_empty();
    assert_eq!(t.title, "");
    assert_eq!(t.is_completed, IsCompleted::NO);
    assert_eq!(t.due_date, DueDate::Unset);
    assert!(t.tags.is_empty());
}

#[test]
fn show_gives_label_value_pairs() {
    let t = todo("Call", "Yes", &["a", "b"], "line1\nline2\nline3");
    let rows = t.show();
    let texts: Vec<&str> = rows.iter().map(|r| r.text.as_str()).collect();
    assert_eq!(
        texts,
        vec![
            "[Title]", "Call", "[List]", "Inbox", "[Status]", "Completed", "[Tags]", "#a, #b",
            "[Note]", "line1\nline2\nline3"
        ]
    );
    for (k, r) in rows.iter().enumerate() {
        assert_eq!(r.label, k % 2 == 0);
    }
    assert_eq!(rows[9].height, 3);
    assert_eq!(rows[7].height, 1);
}

#[test]
fn show_note_without_breaks_is_one_row() {
    assert_eq!(todo("a", "No", &[], "plain").show()[9].height, 1);
    assert_eq!(todo("a", "No", &[], "").show()[9].height, 1);
}

#[test]
fn get_cell_dims_completed() {
    let done = todo("Done", "Yes", &["t"], "");
    let row = TodoObj::get_cell(&done);
    assert_eq!(row.cells, vec!["[x]", "Inbox", "Done", "#t"]);
    assert!(row.dimmed);
    assert_eq!(row.height, 1);
    let open = todo("Open", "No", &[], "");
    let row = TodoObj::get_cell(&open);
    assert_eq!(row.cells, vec!["[ ]", "Inbox", "Open", ""]);
    assert!(!row.dimmed);
}

#[test]
fn item_count_is_ten() {
    assert_eq!(TodoObj::item_count(), 10);
}

#[test]
fn header_meta_and_widths() {
    assert_eq!(Reminder::get_row_meta(), vec!["", "list", "description", "tags"]);
    assert_eq!(
        Reminder::get_header_width(),
        vec![Extent::Length(3), Extent::Length(10), Extent::Percentage(80), Extent::Min(25)]
    );
}

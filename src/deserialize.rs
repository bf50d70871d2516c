use chrono::{Datelike, Timelike};
use vstd::prelude::*;

verus! {

/// Whether a task is done. Parsed leniently: only the exact text `Yes` means done.
#[derive(Debug, Clone, Copy, PartialEq, Eq, Structural)]
pub enum IsCompleted {
    YES,
    NO,
}

impl IsCompleted {
    /// The check-box shown in the main list.
    pub fn as_icon(&self) -> (r: String)
        ensures
            r@ == icon_text(*self),
    {
        match self {
            IsCompleted::YES => String::from_str("[x]"),
            IsCompleted::NO => String::from_str("[ ]"),
        }
    }

    /// The status word shown in the detail pane.
    pub fn as_string(&self) -> (r: String)
        ensures
            r@ == status_text(*self),
    {
        match self {
            IsCompleted::YES => String::from_str("Completed"),
            IsCompleted::NO => String::from_str("Uncompleted"),
        }
    }
}

pub open spec fn icon_text(c: IsCompleted) -> Seq<char> {
    match c {
        IsCompleted::YES => "[x]"@,
        IsCompleted::NO => "[ ]"@,
    }
}

pub open spec fn status_text(c: IsCompleted) -> Seq<char> {
    match c {
        IsCompleted::YES => "Completed"@,
        IsCompleted::NO => "Uncompleted"@,
    }
}

/// The completion flag that a payload text stands for.
pub open spec fn completion_of(s: Seq<char>) -> IsCompleted {
    if s == "Yes"@ {
        IsCompleted::YES
    } else {
        IsCompleted::NO
    }
}

/// Character-wise equality of two strings.
pub fn text_equals(a: &str, b: &str) -> (r: bool)
    ensures
        r == (a@ == b@),
{
    let n = a.unicode_len();
    if n != b.unicode_len() {
        return false;
    }
    let mut i: usize = 0;
    while i < n
        invariant
            n == a@.len(),
            n == b@.len(),
            i <= n,
            forall|j: int| 0 <= j < i ==> a@[j] == b@[j],
        decreases n - i,
    {
        if a.get_char(i) != b.get_char(i) {
            return false;
        }
        i = i + 1;
    }
    assert(a@ =~= b@);
    true
}

/// Reads the completion flag: `Yes` is completed, every other text is not.
pub fn parse_completion(text: &str) -> (r: IsCompleted)
    ensures
        r == completion_of(text@),
{
    if text_equals(text, "Yes") {
        IsCompleted::YES
    } else {
        IsCompleted::NO
    }
}

/// A calendar date and a time of day, to the minute.
#[derive(Debug, Clone, Copy, PartialEq, Eq, Structural)]
pub struct Timestamp {
    pub year: i32,
    pub month: u32,
    pub day: u32,
    pub hour: u32,
    pub minute: u32,
}

impl Timestamp {
    /// The fields lie in their calendar ranges.
    pub open spec fn wf(&self) -> bool {
        &&& 1 <= self.month <= 12
        &&& 1 <= self.day <= 31
        &&& self.hour <= 23
        &&& self.minute <= 59
    }
}

/// The optional due date of a task.
#[derive(Debug, Clone, Copy, PartialEq, Eq, Structural)]
pub enum DueDate {
    Unset,
    Date(Timestamp),
}

/// A due date text that does not follow `%b %d, %Y %H:%M`.
#[derive(Debug, Clone, PartialEq)]
pub struct DueDateError {
    /// The text that was refused.
    pub text: String,
    /// Why the date parser refused it.
    pub reason: String,
}

/// The pattern of due dates in the payload: `Jan 5, 2024 14:30`.
pub const DUE_DATE_FORMAT: &'static str = "%b %d, %Y %H:%M";

/// What `chrono::NaiveDateTime::parse_from_str(s, "%b %d, %Y %H:%M")` gives for `s`:
/// year, month, day, hour and minute, or the text of the parse error.
pub uninterp spec fn reminder_time_of(s: Seq<char>) -> Result<(int, int, int, int, int), Seq<char>>;

/// Relies on `chrono::NaiveDateTime::parse_from_str` with the due date pattern, and on
/// chrono's `Datelike`/`Timelike` accessors, whose documented ranges are stated here.
#[verifier::external_body]
fn parse_reminder_time(s: &str) -> (r: Result<(i32, u32, u32, u32, u32), String>)
    ensures
        match r {
            Ok(t) => {
                &&& reminder_time_of(s@) == Ok::<(int, int, int, int, int), Seq<char>>(
                    (t.0 as int, t.1 as int, t.2 as int, t.3 as int, t.4 as int),
                )
                &&& 1 <= t.1 <= 12
                &&& 1 <= t.2 <= 31
                &&& t.3 <= 23
                &&& t.4 <= 59
            },
            Err(e) => reminder_time_of(s@) == Err::<(int, int, int, int, int), Seq<char>>(e@),
        },
{
    match chrono::NaiveDateTime::parse_from_str(s, DUE_DATE_FORMAT) {
        Ok(dt) => Ok((dt.year(), dt.month(), dt.day(), dt.hour(), dt.minute())),
        Err(e) => Err(e.to_string()),
    }
}

/// The due date that a non-empty payload text stands for, given what the date parser
/// made of it.
pub open spec fn due_date_of_parsed(
    s: Seq<char>,
    parsed: Result<(int, int, int, int, int), Seq<char>>,
) -> Result<Timestamp, (Seq<char>, Seq<char>)> {
    match parsed {
        Ok(t) => Ok(
            Timestamp {
                year: t.0 as i32,
                month: t.1 as u32,
                day: t.2 as u32,
                hour: t.3 as u32,
                minute: t.4 as u32,
            },
        ),
        Err(reason) => Err((s, reason)),
    }
}

/// Whether `r` is the outcome that the parse result `parsed` of the text `s` calls for.
pub open spec fn due_date_result_matches(
    s: Seq<char>,
    parsed: Result<(int, int, int, int, int), Seq<char>>,
    r: Result<DueDate, DueDateError>,
) -> bool {
    match due_date_of_parsed(s, parsed) {
        Ok(t) => r == Ok::<DueDate, DueDateError>(DueDate::Date(t)),
        Err((text, reason)) => match r {
            Err(e) => e.text@ == text && e.reason@ == reason,
            Ok(_) => false,
        },
    }
}

/// Turns what the date parser made of the non-empty text `text` into a due date or an
/// error that carries the text and the parser's reason.
pub fn due_date_from_parsed(text: &str, parsed: Result<(i32, u32, u32, u32, u32), String>) -> (r:
    Result<DueDate, DueDateError>)
    ensures
        due_date_result_matches(
            text@,
            match parsed {
                Ok(t) => Ok((t.0 as int, t.1 as int, t.2 as int, t.3 as int, t.4 as int)),
                Err(e) => Err(e@),
            },
            r,
        ),
{
    match parsed {
        Ok(t) => Ok(
            DueDate::Date(Timestamp { year: t.0, month: t.1, day: t.2, hour: t.3, minute: t.4 }),
        ),
        Err(reason) => Err(DueDateError { text: text.to_owned(), reason }),
    }
}

/// Reads a due date: the empty text means no due date; any other text must follow
/// `%b %d, %Y %H:%M` (24-hour clock), else the error carries the text and the reason.
pub fn parse_due_date(text: &str) -> (r: Result<DueDate, DueDateError>)
    ensures
        text@.len() == 0 ==> r == Ok::<DueDate, DueDateError>(DueDate::Unset),
        text@.len() != 0 ==> due_date_result_matches(text@, reminder_time_of(text@), r),
        r matches Ok(DueDate::Date(t)) ==> t.wf(),
{
    if text.unicode_len() == 0 {
        Ok(DueDate::Unset)
    } else {
        let parsed = parse_reminder_time(text);
        due_date_from_parsed(text, parsed)
    }
}

} // verus!

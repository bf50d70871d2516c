use crate::deserialize::{
    parse_completion, parse_due_date, status_text, icon_text, completion_of, due_date_result_matches,
    reminder_time_of, DueDate, DueDateError, IsCompleted,
};
use itertools::Itertools;
use vstd::prelude::*;

verus! {

/// The parts of a list joined into one text, with `sep` between neighbours.
pub open spec fn joined(parts: Seq<Seq<char>>, sep: Seq<char>) -> Seq<char>
    decreases parts.len(),
{
    if parts.len() == 0 {
        Seq::empty()
    } else if parts.len() == 1 {
        parts[0]
    } else {
        parts[0] + sep + joined(parts.drop_first(), sep)
    }
}

/// The views of a list of strings.
pub open spec fn texts_of(v: Seq<String>) -> Seq<Seq<char>> {
    v.map_values(|s: String| s@)
}

/// Each tag with a leading `#`.
pub open spec fn hashed(tags: Seq<Seq<char>>) -> Seq<Seq<char>> {
    tags.map_values(|t: Seq<char>| seq!['#'] + t)
}

/// The tags as shown: `#a, #b`, and the empty text for no tags.
pub open spec fn tags_text(tags: Seq<Seq<char>>) -> Seq<char> {
    joined(hashed(tags), seq![',', ' '])
}

/// The number of line breaks in a text.
pub open spec fn newline_count(s: Seq<char>) -> nat
    decreases s.len(),
{
    if s.len() == 0 {
        0
    } else {
        newline_count(s.drop_last()) + if s.last() == '\n' { 1nat } else { 0nat }
    }
}

/// Rows a note takes: one more than its line breaks, as a `u16` (modulo 2^16).
pub open spec fn note_height(s: Seq<char>) -> u16 {
    ((newline_count(s) + 1) % 65536) as u16
}

/// Relies on `itertools::Itertools::intersperse`: the parts in order with a copy of the
/// separator between neighbours; collecting `String`s concatenates them.
#[verifier::external_body]
fn intersperse_concat(parts: Vec<String>, sep: &str) -> (r: String)
    ensures
        r@ == joined(texts_of(parts@), sep@),
{
    Itertools::intersperse(parts.into_iter(), sep.to_string()).collect()
}

/// The size of a column or a pane: fixed, a share of the space, or at least some size.
#[derive(Debug, Clone, Copy, PartialEq, Eq, Structural)]
pub enum Extent {
    Length(u16),
    Percentage(u16),
    Min(u16),
}

/// The payload document: the list of tasks.
pub struct Reminder {
    pub todos: Vec<TodoObj>,
}

impl Reminder {
    /// The column titles of the main list.
    pub fn get_row_meta() -> (r: Vec<&'static str>)
        ensures
            r@.len() == 4,
            r@[0]@ == ""@,
            r@[1]@ == "list"@,
            r@[2]@ == "description"@,
            r@[3]@ == "tags"@,
    {
        vec!["", "list", "description", "tags"]
    }

    /// The column widths of the main list.
    pub fn get_header_width() -> (r: Vec<Extent>)
        ensures
            r@ == seq![Extent::Length(3), Extent::Length(10), Extent::Percentage(80), Extent::Min(25)],
    {
        let r = vec![Extent::Length(3), Extent::Length(10), Extent::Percentage(80), Extent::Min(25)];
        assert(r@ =~= seq![Extent::Length(3), Extent::Length(10), Extent::Percentage(80), Extent::Min(25)]);
        r
    }
}

/// One task record.
#[derive(Debug, Clone, PartialEq)]
pub struct TodoObj {
    pub title: String,
    pub is_completed: IsCompleted,
    pub due_date: DueDate,
    pub list: String,
    pub tags: Vec<String>,
    pub note: String,
}

/// A row of the main list: its cells, and whether it is shown dimmed.
#[derive(Debug, Clone, PartialEq)]
pub struct TableRow {
    pub cells: Vec<String>,
    pub dimmed: bool,
    pub height: u16,
}

/// A row of the detail pane: a label row (accent style) or a value row, with its height.
#[derive(Debug, Clone, PartialEq)]
pub struct DetailRow {
    pub text: String,
    pub label: bool,
    pub height: u16,
}

/// The texts of the detail pane, label and value in turn.
pub open spec fn detail_texts(t: TodoObj) -> Seq<Seq<char>> {
    seq![
        "[Title]"@, t.title@,
        "[List]"@, t.list@,
        "[Status]"@, status_text(t.is_completed),
        "[Tags]"@, tags_text(texts_of(t.tags@)),
        "[Note]"@, t.note@,
    ]
}

/// The cells of the main list row of a task.
pub open spec fn row_texts(t: TodoObj) -> Seq<Seq<char>> {
    seq![icon_text(t.is_completed), t.list@, t.title@, tags_text(texts_of(t.tags@))]
}

impl TodoObj {
    /// Builds a record from the payload's field texts: the completion text is read
    /// leniently, the due date strictly.
    pub fn from_payload(
        title: String,
        is_completed: &str,
        due_date: &str,
        list: String,
        tags: Vec<String>,
        note: String,
    ) -> (r: Result<TodoObj, DueDateError>)
        ensures
            match r {
                Ok(t) => {
                    &&& t.title == title
                    &&& t.is_completed == completion_of(is_completed@)
                    &&& t.list == list
                    &&& t.tags == tags
                    &&& t.note == note
                    &&& due_date@.len() == 0 ==> t.due_date == DueDate::Unset
                },
                Err(_) => due_date@.len() != 0,
            },
            due_date@.len() != 0 ==> due_date_result_matches(
                due_date@,
                reminder_time_of(due_date@),
                match r {
                    Ok(t) => Ok(t.due_date),
                    Err(e) => Err(e),
                },
            ),
    {
        let due = parse_due_date(due_date);
        match due {
            Ok(d) => Ok(
                TodoObj {
                    title,
                    is_completed: parse_completion(is_completed),
                    due_date: d,
                    list,
                    tags,
                    note,
                },
            ),
            Err(e) => Err(e),
        }
    }

    /// A record with empty texts, no tags, not completed and no due date.
    pub fn new_empty() -> (r: TodoObj)
        ensures
            r.title@.len() == 0,
            r.is_completed == IsCompleted::NO,
            r.due_date == DueDate::Unset,
            r.list@.len() == 0,
            r.tags@.len() == 0,
            r.note@.len() == 0,
    {
        TodoObj {
            title: String::new(),
            is_completed: IsCompleted::NO,
            due_date: DueDate::Unset,
            list: String::new(),
            tags: Vec::new(),
            note: String::new(),
        }
    }

    /// The tags as `#a, #b`; no tags give the empty text.
    pub fn format_tags(&self) -> (r: String)
        ensures
            r@ == tags_text(texts_of(self.tags@)),
    {
        let mut parts: Vec<String> = Vec::new();
        let mut i: usize = 0;
        while i < self.tags.len()
            invariant
                i <= self.tags@.len(),
                texts_of(parts@) =~= hashed(texts_of(self.tags@)).subrange(0, i as int),
            decreases self.tags@.len() - i,
        {
            let mut part = String::from_str("#");
            proof {
                reveal_strlit("#");
            }
            part.append(self.tags[i].as_str());
            assert(part@ == seq!['#'] + texts_of(self.tags@)[i as int]);
            let ghost before = parts@;
            parts.push(part);
            assert(texts_of(parts@) =~= texts_of(before).push(part@));
            assert(hashed(texts_of(self.tags@)).subrange(0, i + 1) =~= hashed(
                texts_of(self.tags@),
            ).subrange(0, i as int).push(part@));
            i = i + 1;
        }
        proof {
            reveal_strlit(", ");
            assert(hashed(texts_of(self.tags@)).subrange(0, i as int) =~= hashed(texts_of(self.tags@)));
            assert(", "@ =~= seq![',', ' ']);
        }
        intersperse_concat(parts, ", ")
    }

    /// The cells of the record's row in the main list.
    fn get_row(&self) -> (r: Vec<String>)
        ensures
            texts_of(r@) == row_texts(*self),
    {
        let r = vec![
            self.is_completed.as_icon(),
            self.list.clone(),
            self.title.clone(),
            self.format_tags(),
        ];
        assert(texts_of(r@) =~= row_texts(*self));
        r
    }

    /// Rows the note takes in the detail pane.
    fn get_height(&self) -> (r: u16)
        ensures
            r == note_height(self.note@),
    {
        let n = self.note.unicode_len();
        let mut count: usize = 0;
        let mut i: usize = 0;
        while i < n
            invariant
                n == self.note@.len(),
                i <= n,
                count <= i,
                count == newline_count(self.note@.subrange(0, i as int)),
            decreases n - i,
        {
            let c = self.note.get_char(i);
            let ghost next = self.note@.subrange(0, i + 1);
            proof {
                assert(next.drop_last() =~= self.note@.subrange(0, i as int));
                assert(next.last() == c);
                assert(newline_count(next) == newline_count(self.note@.subrange(0, i as int)) + if c
                    == '\n' {
                    1nat
                } else {
                    0nat
                });
            }
            if c == '\n' {
                count = count + 1;
            }
            i = i + 1;
        }
        proof {
            assert(self.note@.subrange(0, n as int) =~= self.note@);
        }
        let h: u64 = (count as u64 % 65536) + 1;
        (h % 65536) as u16
    }

    /// The detail pane of the record: five label/value pairs (title, list, status, tags,
    /// note); the note row is as high as the note has lines.
    pub fn show(&self) -> (r: Vec<DetailRow>)
        ensures
            r@.len() == 10,
            forall|k: int| 0 <= k < 10 ==> #[trigger] r@[k].text@ == detail_texts(*self)[k],
            forall|k: int| 0 <= k < 10 ==> #[trigger] r@[k].label == (k % 2 == 0),
            forall|k: int| 0 <= k < 10 ==> #[trigger] r@[k].height == if k == 9 {
                note_height(self.note@)
            } else {
                1u16
            },
    {
        let r = vec![
            DetailRow { text: String::from_str("[Title]"), label: true, height: 1 },
            DetailRow { text: self.title.clone(), label: false, height: 1 },
            DetailRow { text: String::from_str("[List]"), label: true, height: 1 },
            DetailRow { text: self.list.clone(), label: false, height: 1 },
            DetailRow { text: String::from_str("[Status]"), label: true, height: 1 },
            DetailRow { text: self.is_completed.as_string(), label: false, height: 1 },
            DetailRow { text: String::from_str("[Tags]"), label: true, height: 1 },
            DetailRow { text: self.format_tags(), label: false, height: 1 },
            DetailRow { text: String::from_str("[Note]"), label: true, height: 1 },
            DetailRow { text: self.note.clone(), label: false, height: self.get_height() },
        ];
        r
    }

    /// The main list row of a task; completed tasks are dimmed.
    pub fn get_cell(todo: &TodoObj) -> (r: TableRow)
        ensures
            texts_of(r.cells@) == row_texts(*todo),
            r.dimmed == (todo.is_completed == IsCompleted::YES),
            r.height == 1,
    {
        let height: u16 = 1;
        let cells = todo.get_row();
        let dimmed = match todo.is_completed {
            IsCompleted::YES => true,
            IsCompleted::NO => false,
        };
        TableRow { cells, dimmed, height }
    }

    /// Rows of the detail pane: five label/value pairs.
    pub fn item_count() -> (r: usize)
        ensures
            r == 10,
    {
        10
    }
}

} // verus!

use crate::todo_obj::{detail_texts, note_height, row_texts, texts_of, DetailRow, Extent, TableRow, TodoObj};
use crate::deserialize::IsCompleted;
use vstd::math::min;
use vstd::prelude::*;

verus! {

/// The pane that receives navigation keys.
#[derive(Debug, Clone, Copy, PartialEq, Eq, Structural)]
pub enum TableChunk {
    TodoList,
    SelectedTodo,
}

/// Whether keys move cursors or edit the input buffer.
#[derive(Debug, Clone, Copy, PartialEq, Eq, Structural)]
pub enum InputMode {
    Normal,
    Editing,
}

/// A key press, as far as the dispatcher tells keys apart.
#[derive(Debug, Clone, Copy, PartialEq, Eq, Structural)]
pub enum Key {
    Char(char),
    Up,
    Down,
    Enter,
    Backspace,
    Esc,
    Other,
}

/// What the input loop does after a key.
#[derive(Debug, Clone, Copy, PartialEq, Eq, Structural)]
pub enum Action {
    Continue,
    Quit,
}

/// Rows of the detail pane: five label/value pairs.
pub const DETAIL_ROWS: usize = 10;

/// The next index of a cursor over `n` rows with step `s`, wrapping to the start.
pub open spec fn advanced(i: int, n: int, s: int) -> int {
    if i >= n - s {
        0
    } else {
        i + s
    }
}

/// The previous index of a cursor over `n` rows with step `s`, wrapping to the end.
pub open spec fn retreated(i: int, n: int, s: int) -> int {
    if i == 0 {
        n - s
    } else {
        i - s
    }
}

/// `advanced` applied `k` times.
pub open spec fn advanced_times(k: nat, i: int, n: int, s: int) -> int
    decreases k,
{
    if k == 0 {
        i
    } else {
        advanced(advanced_times((k - 1) as nat, i, n, s), n, s)
    }
}

/// A cursor moved forward; over no rows it stays as it is, and an unset cursor starts
/// at the first row.
pub open spec fn cursor_advanced(c: Option<int>, n: int, s: int) -> Option<int> {
    if n == 0 {
        c
    } else {
        match c {
            Some(i) => Some(advanced(i, n, s)),
            None => Some(0),
        }
    }
}

/// A cursor moved back; over no rows it stays as it is, and an unset cursor starts at
/// the first row.
pub open spec fn cursor_retreated(c: Option<int>, n: int, s: int) -> Option<int> {
    if n == 0 {
        c
    } else {
        match c {
            Some(i) => Some(retreated(i, n, s)),
            None => Some(0),
        }
    }
}

pub open spec fn is_quit(k: Key) -> bool {
    k == Key::Char('q')
}

pub open spec fn is_down(k: Key) -> bool {
    k == Key::Down || k == Key::Char('j')
}

pub open spec fn is_up(k: Key) -> bool {
    k == Key::Up || k == Key::Char('k')
}

pub open spec fn is_confirm(k: Key) -> bool {
    k == Key::Enter || k == Key::Char('l')
}

pub open spec fn is_back(k: Key) -> bool {
    k == Key::Char('q') || k == Key::Char('h')
}

/// The state of the viewer as a mathematical value.
pub struct AppModel {
    pub todos: Seq<TodoObj>,
    pub list_cursor: Option<int>,
    pub detail_cursor: Option<int>,
    pub focus: TableChunk,
    pub mode: InputMode,
    pub input: Seq<char>,
}

impl AppModel {
    /// Cursors in bounds: the list cursor is set exactly when there are tasks, the
    /// detail cursor is on a value row pair.
    pub open spec fn wf(self) -> bool {
        &&& self.todos.len() <= usize::MAX
        &&& match self.list_cursor {
            Some(i) => 0 <= i < self.todos.len(),
            None => self.todos.len() == 0,
        }
        &&& match self.detail_cursor {
            Some(j) => 0 <= j < DETAIL_ROWS && j % 2 == 0,
            None => false,
        }
    }

    /// Moves the cursor of the focused pane forward.
    pub open spec fn next(self) -> AppModel {
        match self.focus {
            TableChunk::TodoList => AppModel {
                list_cursor: cursor_advanced(self.list_cursor, self.todos.len() as int, 1),
                ..self
            },
            TableChunk::SelectedTodo => AppModel {
                detail_cursor: cursor_advanced(self.detail_cursor, DETAIL_ROWS as int, 2),
                ..self
            },
        }
    }

    /// Moves the cursor of the focused pane back.
    pub open spec fn previous(self) -> AppModel {
        match self.focus {
            TableChunk::TodoList => AppModel {
                list_cursor: cursor_retreated(self.list_cursor, self.todos.len() as int, 1),
                ..self
            },
            TableChunk::SelectedTodo => AppModel {
                detail_cursor: cursor_retreated(self.detail_cursor, DETAIL_ROWS as int, 2),
                ..self
            },
        }
    }

    /// Focuses a pane; the detail cursor goes back to its first row.
    pub open spec fn select(self, target: TableChunk) -> AppModel {
        AppModel { detail_cursor: Some(0), focus: target, ..self }
    }

    /// The state after a key, and whether the loop goes on.
    pub open spec fn on_key(self, key: Key) -> (AppModel, Action) {
        match self.mode {
            InputMode::Normal => match self.focus {
                TableChunk::TodoList => if is_quit(key) {
                    (self, Action::Quit)
                } else if is_down(key) {
                    (self.next(), Action::Continue)
                } else if is_up(key) {
                    (self.previous(), Action::Continue)
                } else if is_confirm(key) {
                    (self.select(TableChunk::SelectedTodo), Action::Continue)
                } else {
                    (self, Action::Continue)
                },
                TableChunk::SelectedTodo => if is_down(key) {
                    (self.next(), Action::Continue)
                } else if is_up(key) {
                    (self.previous(), Action::Continue)
                } else if is_back(key) {
                    (self.select(TableChunk::TodoList), Action::Continue)
                } else if is_confirm(key) {
                    (AppModel { mode: InputMode::Editing, input: Seq::empty(), ..self }, Action::Continue)
                } else {
                    (self, Action::Continue)
                },
            },
            InputMode::Editing => match key {
                Key::Char(c) => (AppModel { input: self.input.push(c), ..self }, Action::Continue),
                Key::Backspace => if self.input.len() == 0 {
                    (self, Action::Continue)
                } else {
                    (AppModel { input: self.input.drop_last(), ..self }, Action::Continue)
                },
                Key::Esc => (AppModel { mode: InputMode::Normal, ..self }, Action::Continue),
                _ => (self, Action::Continue),
            },
        }
    }
}

/// Relies on `String::push`: the character is appended.
pub assume_specification[ String::push ](s: &mut String, ch: char)
    ensures
        final(s)@ == old(s)@.push(ch),
;

/// Relies on `String::pop`: the last character is removed and returned, `None` when empty.
pub assume_specification[ String::pop ](s: &mut String) -> (r: Option<char>)
    ensures
        old(s)@.len() == 0 ==> r is None && final(s)@ == old(s)@,
        old(s)@.len() > 0 ==> r == Some(old(s)@.last()) && final(s)@ == old(s)@.drop_last(),
;

/// The viewer's state: the tasks, a cursor per pane, the focus, the mode and the
/// edit buffer.
pub struct App {
    todo_list_state: Option<usize>,
    selected_todo_state: Option<usize>,
    highlighted: TableChunk,
    todos: Vec<TodoObj>,
    input: String,
    input_mode: InputMode,
}

impl View for App {
    type V = AppModel;

    closed spec fn view(&self) -> AppModel {
        AppModel {
            todos: self.todos@,
            list_cursor: match self.todo_list_state {
                Some(i) => Some(i as int),
                None => None,
            },
            detail_cursor: match self.selected_todo_state {
                Some(j) => Some(j as int),
                None => None,
            },
            focus: self.highlighted,
            mode: self.input_mode,
            input: self.input@,
        }
    }
}

impl App {
    /// A viewer over `todos`: the list cursor on the first task (unset when there is
    /// none), the detail cursor on its first row, the list focused, keys navigating and
    /// the edit buffer empty.
    pub fn new(todos: Vec<TodoObj>) -> (r: App)
        ensures
            r@.wf(),
            r@ == (AppModel {
                todos: todos@,
                list_cursor: if todos@.len() == 0 { None } else { Some(0) },
                detail_cursor: Some(0),
                focus: TableChunk::TodoList,
                mode: InputMode::Normal,
                input: Seq::empty(),
            }),
    {
        let list = if todos.len() == 0 {
            None
        } else {
            Some(0)
        };
        App {
            todo_list_state: list,
            selected_todo_state: Some(0),
            highlighted: TableChunk::TodoList,
            todos,
            input: String::new(),
            input_mode: InputMode::Normal,
        }
    }

    /// Row count and step of the focused pane.
    fn focused_bounds(&self) -> (r: (usize, usize))
        ensures
            r.0 == match self.highlighted {
                TableChunk::TodoList => self.todos@.len(),
                TableChunk::SelectedTodo => DETAIL_ROWS as nat,
            },
            r.1 == match self.highlighted {
                TableChunk::TodoList => 1usize,
                TableChunk::SelectedTodo => 2usize,
            },
    {
        match self.highlighted {
            TableChunk::TodoList => (self.todos.len(), 1),
            TableChunk::SelectedTodo => (TodoObj::item_count(), 2),
        }
    }

    /// Moves the cursor of the focused pane forward, wrapping to the start; with no
    /// tasks the list cursor stays unset.
    pub fn next(&mut self)
        requires
            old(self)@.wf(),
        ensures
            final(self)@.wf(),
            final(self)@ == old(self)@.next(),
    {
        let (bound, step) = self.focused_bounds();
        if bound == 0 {
            return;
        }
        let current = match self.highlighted {
            TableChunk::TodoList => self.todo_list_state,
            TableChunk::SelectedTodo => self.selected_todo_state,
        };
        let i = match current {
            Some(i) => if i >= bound - step {
                0
            } else {
                i + step
            },
            None => 0,
        };
        match self.highlighted {
            TableChunk::TodoList => self.todo_list_state = Some(i),
            TableChunk::SelectedTodo => self.selected_todo_state = Some(i),
        }
    }

    /// Moves the cursor of the focused pane back, wrapping to the end; with no tasks
    /// the list cursor stays unset.
    pub fn previous(&mut self)
        requires
            old(self)@.wf(),
        ensures
            final(self)@.wf(),
            final(self)@ == old(self)@.previous(),
    {
        let (bound, step) = self.focused_bounds();
        if bound == 0 {
            return;
        }
        let current = match self.highlighted {
            TableChunk::TodoList => self.todo_list_state,
            TableChunk::SelectedTodo => self.selected_todo_state,
        };
        let i = match current {
            Some(i) => if i == 0 {
                bound - step
            } else {
                i - step
            },
            None => 0,
        };
        match self.highlighted {
            TableChunk::TodoList => self.todo_list_state = Some(i),
            TableChunk::SelectedTodo => self.selected_todo_state = Some(i),
        }
    }

    /// Focuses `target_chunk` and puts the detail cursor back on its first row,
    /// whichever pane is focused.
    pub fn select(&mut self, target_chunk: TableChunk)
        requires
            old(self)@.wf(),
        ensures
            final(self)@.wf(),
            final(self)@ == old(self)@.select(target_chunk),
            final(self)@.detail_cursor == Some(0int),
            final(self)@.focus == target_chunk,
    {
        self.selected_todo_state = Some(0);
        self.highlighted = target_chunk;
    }

    /// Applies one key to the state, by focus and mode; `Quit` only from the list
    /// while navigating.
    pub fn handle_key(&mut self, key: Key) -> (r: Action)
        requires
            old(self)@.wf(),
        ensures
            final(self)@.wf(),
            (final(self)@, r) == old(self)@.on_key(key),
    {
        match self.input_mode {
            InputMode::Normal => match self.highlighted {
                TableChunk::TodoList => {
                    if key == Key::Char('q') {
                        return Action::Quit;
                    } else if key == Key::Down || key == Key::Char('j') {
                        self.next();
                    } else if key == Key::Up || key == Key::Char('k') {
                        self.previous();
                    } else if key == Key::Enter || key == Key::Char('l') {
                        self.select(TableChunk::SelectedTodo);
                    }
                },
                TableChunk::SelectedTodo => {
                    if key == Key::Down || key == Key::Char('j') {
                        self.next();
                    } else if key == Key::Up || key == Key::Char('k') {
                        self.previous();
                    } else if key == Key::Char('q') || key == Key::Char('h') {
                        self.select(TableChunk::TodoList);
                    } else if key == Key::Enter || key == Key::Char('l') {
                        self.input = String::new();
                        self.input_mode = InputMode::Editing;
                    }
                },
            },
            InputMode::Editing => match key {
                Key::Char(c) => {
                    self.input.push(c);
                },
                Key::Backspace => {
                    self.input.pop();
                },
                Key::Esc => {
                    self.input_mode = InputMode::Normal;
                },
                _ => {},
            },
        }
        Action::Continue
    }

    /// The main list rows, one per task, in order; completed tasks are dimmed.
    pub fn todo_rows(&self) -> (r: Vec<TableRow>)
        ensures
            r@.len() == self@.todos.len(),
            forall|k: int|
                0 <= k < r@.len() ==> {
                    &&& texts_of((#[trigger] r@[k]).cells@) == row_texts(self@.todos[k])
                    &&& r@[k].dimmed == (self@.todos[k].is_completed == IsCompleted::YES)
                    &&& r@[k].height == 1
                },
    {
        let mut rows: Vec<TableRow> = Vec::new();
        let mut i: usize = 0;
        while i < self.todos.len()
            invariant
                i <= self.todos@.len(),
                rows@.len() == i,
                forall|k: int|
                    0 <= k < i ==> {
                        &&& texts_of((#[trigger] rows@[k]).cells@) == row_texts(self.todos@[k])
                        &&& rows@[k].dimmed == (self.todos@[k].is_completed == IsCompleted::YES)
                        &&& rows@[k].height == 1
                    },
            decreases self.todos@.len() - i,
        {
            let row = TodoObj::get_cell(&self.todos[i]);
            rows.push(row);
            assert(rows@[i as int] == row);
            i = i + 1;
        }
        rows
    }

    /// The detail pane rows of the task under the list cursor; none without tasks.
    pub fn selected_rows(&self) -> (r: Vec<DetailRow>)
        requires
            self@.wf(),
        ensures
            match self@.list_cursor {
                Some(i) => {
                    &&& r@.len() == DETAIL_ROWS
                    &&& forall|k: int|
                        0 <= k < DETAIL_ROWS ==> #[trigger] r@[k].text@ == detail_texts(
                            self@.todos[i],
                        )[k]
                    &&& forall|k: int| 0 <= k < DETAIL_ROWS ==> #[trigger] r@[k].label == (k % 2 == 0)
                    &&& forall|k: int|
                        0 <= k < DETAIL_ROWS ==> #[trigger] r@[k].height == if k == 9 {
                            note_height(self@.todos[i].note@)
                        } else {
                            1u16
                        }
                },
                None => r@.len() == 0,
            },
    {
        match self.todo_list_state {
            Some(i) => self.todos[i].show(),
            None => Vec::new(),
        }
    }

    /// Whether the detail pane is drawn highlighted: only while it has the focus.
    pub fn detail_highlighted(&self) -> (r: bool)
        ensures
            r == (self@.focus == TableChunk::SelectedTodo),
    {
        self.highlighted == TableChunk::SelectedTodo
    }

    /// Where the terminal cursor goes in an input box whose corner is at `(x, y)`:
    /// while editing, one cell in from the border and just after the buffer's last
    /// character (held at the largest coordinate); nowhere otherwise.
    pub fn input_cursor(&self, x: u16, y: u16) -> (r: Option<(u16, u16)>)
        ensures
            self@.mode == InputMode::Normal ==> r is None,
            self@.mode == InputMode::Editing ==> r == Some(
                (
                    min(x + self@.input.len() + 1, u16::MAX as int) as u16,
                    min(y + 1, u16::MAX as int) as u16,
                ),
            ),
    {
        match self.input_mode {
            InputMode::Normal => None,
            InputMode::Editing => {
                let len = self.input.unicode_len();
                let col: u16 = if len >= 65535 {
                    65535
                } else {
                    let t: u64 = x as u64 + len as u64 + 1;
                    if t > 65535 {
                        65535
                    } else {
                        t as u16
                    }
                };
                let row: u16 = if y == 65535 {
                    65535
                } else {
                    y + 1
                };
                Some((col, row))
            },
        }
    }

    /// The list cursor: unset only when there are no tasks.
    pub fn list_selection(&self) -> (r: Option<usize>)
        ensures
            r matches Some(i) ==> self@.list_cursor == Some(i as int),
            r is None ==> self@.list_cursor is None,
    {
        self.todo_list_state
    }

    /// The detail cursor.
    pub fn detail_selection(&self) -> (r: Option<usize>)
        ensures
            r matches Some(i) ==> self@.detail_cursor == Some(i as int),
            r is None ==> self@.detail_cursor is None,
    {
        self.selected_todo_state
    }

    /// The focused pane.
    pub fn focus(&self) -> (r: TableChunk)
        ensures
            r == self@.focus,
    {
        self.highlighted
    }

    /// The interaction mode.
    pub fn mode(&self) -> (r: InputMode)
        ensures
            r == self@.mode,
    {
        self.input_mode
    }

    /// The edit buffer.
    pub fn input(&self) -> (r: &str)
        ensures
            r@ == self@.input,
    {
        self.input.as_str()
    }
}

/// The three panes from top to bottom: the main list takes what is left, the detail
/// pane twenty rows, the input box three.
pub fn screen_layout() -> (r: Vec<Extent>)
    ensures
        r@ == seq![Extent::Min(0), Extent::Length(20), Extent::Length(3)],
{
    let r = vec![Extent::Min(0), Extent::Length(20), Extent::Length(3)];
    assert(r@ =~= seq![Extent::Min(0), Extent::Length(20), Extent::Length(3)]);
    r
}

/// Running `a` steps and then `b` more is running `a + b` steps.
proof fn lemma_advanced_times_split(a: nat, b: nat, i: int, n: int, s: int)
    ensures
        advanced_times(a + b, i, n, s) == advanced_times(b, advanced_times(a, i, n, s), n, s),
    decreases b,
{
    if b > 0 {
        lemma_advanced_times_split(a, (b - 1) as nat, i, n, s);
        assert((a + b - 1) as nat == a + (b - 1) as nat);
    }
}

/// From row pair `j` of `m`, `k` steps reach pair `j + k`, or the start once they pass
/// the last one.
proof fn lemma_advanced_times_walk(k: nat, j: int, m: int, s: int)
    requires
        s == 1 || s == 2,
        0 <= j < m,
        j + k <= m,
    ensures
        advanced_times(k, s * j, s * m, s) == if j + k < m {
            s * (j + k)
        } else {
            0
        },
    decreases k,
{
    if k > 0 {
        lemma_advanced_times_walk((k - 1) as nat, j, m, s);
        let prev = s * (j + k - 1);
        assert(prev + s == s * (j + k)) by (nonlinear_arith)
            requires
                prev == s * (j + k - 1),
        ;
        assert(prev >= s * m - s <==> j + k >= m) by (nonlinear_arith)
            requires
                prev == s * (j + k - 1),
                s > 0,
        ;
    }
}

/// A cursor index on the step pattern is a whole number of steps.
proof fn lemma_on_pattern(i: int, n: int, s: int)
    requires
        s == 1 || s == 2,
        n > 0,
        n % s == 0,
        0 <= i < n,
        i % s == 0,
    ensures
        i == s * (i / s),
        n == s * (n / s),
        0 <= i / s < n / s,
{
    vstd::arithmetic::div_mod::lemma_fundamental_div_mod(i, s);
    vstd::arithmetic::div_mod::lemma_fundamental_div_mod(n, s);
    assert(0 <= i / s < n / s) by (nonlinear_arith)
        requires
            i == s * (i / s),
            n == s * (n / s),
            0 <= i < n,
            s > 0,
    ;
}

/// Wraparound: over `n` rows with step `s`, advancing `n / s` times brings a cursor
/// back to where it started.
pub proof fn lemma_advance_cycle(n: int, s: int, i: int)
    requires
        s == 1 || s == 2,
        n > 0,
        n % s == 0,
        0 <= i < n,
        i % s == 0,
    ensures
        advanced_times((n / s) as nat, i, n, s) == i,
{
    lemma_on_pattern(i, n, s);
    let j = i / s;
    let m = n / s;
    lemma_advanced_times_split((m - j) as nat, j as nat, i, n, s);
    assert((m - j) as nat + j as nat == m as nat);
    lemma_advanced_times_walk((m - j) as nat, j, m, s);
    lemma_advanced_times_walk(j as nat, 0, m, s);
    assert(s * 0 == 0);
}

/// Moving back undoes moving forward, and moving forward undoes moving back.
pub proof fn lemma_retreat_inverts_advance(n: int, s: int, i: int)
    requires
        s == 1 || s == 2,
        n > 0,
        n % s == 0,
        0 <= i < n,
        i % s == 0,
    ensures
        retreated(advanced(i, n, s), n, s) == i,
        advanced(retreated(i, n, s), n, s) == i,
{
    lemma_on_pattern(i, n, s);
    let j = i / s;
    let m = n / s;
    assert(i >= n - s ==> i == n - s) by (nonlinear_arith)
        requires
            i == s * j,
            n == s * m,
            j < m,
            s > 0,
    ;
    assert(i != 0 ==> i >= s) by (nonlinear_arith)
        requires
            i == s * j,
            j >= 0,
            s > 0,
    ;
}

/// Edit mode is entered only from the detail pane: from the list, no key starts editing.
pub proof fn lemma_edit_needs_detail_focus(m: AppModel, key: Key)
    requires
        m.mode == InputMode::Normal,
    ensures
        m.on_key(key).0.mode == InputMode::Editing ==> m.focus == TableChunk::SelectedTodo,
{
}

/// With no tasks, moving in the list changes nothing.
pub proof fn lemma_empty_list_navigation(m: AppModel)
    requires
        m.wf(),
        m.todos.len() == 0,
        m.focus == TableChunk::TodoList,
    ensures
        m.next() == m,
        m.previous() == m,
{
}

/// Focusing either pane puts the detail cursor on its first row.
pub proof fn lemma_select_resets_detail(m: AppModel, target: TableChunk)
    ensures
        m.select(target).detail_cursor == Some(0int),
        m.select(target).focus == target,
{
}

/// The state after moving forward `k` times in the focused pane.
pub open spec fn next_times(m: AppModel, k: nat) -> AppModel
    decreases k,
{
    if k == 0 {
        m
    } else {
        next_times(m, (k - 1) as nat).next()
    }
}

/// How many forward moves take the focused pane once round: its row count over its step.
pub open spec fn cycle_length(m: AppModel) -> nat {
    match m.focus {
        TableChunk::TodoList => m.todos.len(),
        TableChunk::SelectedTodo => (DETAIL_ROWS / 2) as nat,
    }
}

/// In the list, moving forward `k` times moves the list cursor by `advanced_times`
/// and leaves the rest of the state alone.
proof fn lemma_next_times_moves_list(m: AppModel, k: nat)
    requires
        m.wf(),
        m.todos.len() > 0,
        m.focus == TableChunk::TodoList,
    ensures
        next_times(m, k) == (AppModel {
            list_cursor: Some(advanced_times(k, m.list_cursor->Some_0, m.todos.len() as int, 1)),
            ..m
        }),
    decreases k,
{
    if k > 0 {
        lemma_next_times_moves_list(m, (k - 1) as nat);
    }
}

/// Wraparound of the whole state: moving forward once round the focused pane gives back
/// the state one started from.
pub proof fn lemma_next_cycle(m: AppModel)
    requires
        m.wf(),
        m.focus == TableChunk::SelectedTodo || m.todos.len() > 0,
    ensures
        next_times(m, cycle_length(m)) == m,
{
    match m.focus {
        TableChunk::TodoList => {
            let n = m.todos.len() as int;
            lemma_next_times_moves_list(m, cycle_length(m));
            lemma_advance_cycle(n, 1, m.list_cursor->Some_0);
            assert(n / 1 == n);
        },
        TableChunk::SelectedTodo => {
            lemma_next_times_moves_detail(m, cycle_length(m));
            lemma_advance_cycle(DETAIL_ROWS as int, 2, m.detail_cursor->Some_0);
        },
    }
}

/// In the detail pane, moving forward `k` times moves the detail cursor by
/// `advanced_times`, whatever the number of tasks.
proof fn lemma_next_times_moves_detail(m: AppModel, k: nat)
    requires
        m.wf(),
        m.focus == TableChunk::SelectedTodo,
    ensures
        next_times(m, k) == (AppModel {
            detail_cursor: Some(
                advanced_times(k, m.detail_cursor->Some_0, DETAIL_ROWS as int, 2),
            ),
            ..m
        }),
    decreases k,
{
    if k > 0 {
        lemma_next_times_moves_detail(m, (k - 1) as nat);
    }
}

/// Backspace on an empty edit buffer changes nothing.
pub proof fn lemma_backspace_on_empty_buffer(m: AppModel)
    requires
        m.mode == InputMode::Editing,
        m.input.len() == 0,
    ensures
        m.on_key(Key::Backspace) == (m, Action::Continue),
{
}

} // verus!

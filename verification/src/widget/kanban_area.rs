//! The kanban board: tasks grouped into columns by priority and status; cards
//! are dragged from one place on the board to another.

use vstd::prelude::*;
use vstd::multiset::Multiset;
use crate::message::Message;
use crate::page::Pages;
use crate::task::{Task, TaskPriority, TaskStatus};

verus! {

/// Number of columns on the board: `Pending` and `WorkInProgress` get three
/// each (High / Medium / Low), `Complete` and `Canceled` one each.
pub const COLUMN_COUNT: usize = 8;

pub const COL_PENDING_HIGH: usize = 0;
pub const COL_PENDING_MEDIUM: usize = 1;
pub const COL_PENDING_LOW: usize = 2;
pub const COL_WIP_HIGH: usize = 3;
pub const COL_WIP_MEDIUM: usize = 4;
pub const COL_WIP_LOW: usize = 5;
pub const COL_COMPLETE: usize = 6;
pub const COL_CANCELED: usize = 7;

/// A place on the board: a column and a row within it.
#[derive(Clone, Copy, Debug, PartialEq, Eq, Structural)]
pub struct Location {
    pub col: usize,
    pub row: usize,
}

/// The column a task with this priority and status belongs to.
pub open spec fn spec_column_of(priority: TaskPriority, status: TaskStatus) -> int {
    match status {
        TaskStatus::Pending => match priority {
            TaskPriority::High => 0,
            TaskPriority::Medium => 1,
            TaskPriority::Low => 2,
        },
        TaskStatus::WorkInProgress => match priority {
            TaskPriority::High => 3,
            TaskPriority::Medium => 4,
            TaskPriority::Low => 5,
        },
        TaskStatus::Complete => 6,
        TaskStatus::Canceled => 7,
    }
}

/// The tasks of `tasks` that belong to column `col`, in their order.
pub open spec fn column_share(tasks: Seq<Task>, col: int) -> Seq<Task> {
    tasks.filter(|t: Task| spec_column_of(t.priority, t.status) == col)
}

/// A board with every column empty.
pub open spec fn empty_board() -> Seq<Seq<Task>> {
    Seq::new(COLUMN_COUNT as nat, |c: int| Seq::<Task>::empty())
}

/// The board after a card is dragged from `from` and dropped at `to`.
///
/// A drop below the card's own place in its own column counts one row less,
/// since the card leaves that column first; a row past the end of the target
/// column means its end.
pub open spec fn spec_move(board: Seq<Seq<Task>>, from: Location, to: Location) -> Seq<Seq<Task>> {
    if from.row >= board[from.col as int].len() {
        board
    } else {
        let item = board[from.col as int][from.row as int];
        let lifted = board.update(from.col as int, board[from.col as int].remove(from.row as int));
        let target = lifted[to.col as int];
        lifted.update(to.col as int, target.insert(landing_row(board, from, to), item))
    }
}

/// The row at which a card dragged from `from` and dropped at `to` lands.
pub open spec fn landing_row(board: Seq<Seq<Task>>, from: Location, to: Location) -> int {
    let row = if from.col == to.col && from.row < to.row {
        to.row - 1
    } else {
        to.row as int
    };
    let target_len = if from.col == to.col {
        board[to.col as int].len() - 1
    } else {
        board[to.col as int].len() as int
    };
    if row < target_len {
        row
    } else {
        target_len
    }
}

/// Every card on the board, counted with multiplicity.
pub open spec fn cards(board: Seq<Seq<Task>>) -> Multiset<Task>
    decreases board.len(),
{
    if board.len() == 0 {
        Multiset::empty()
    } else {
        cards(board.drop_last()).add(board.last().to_multiset())
    }
}

/// The column a task with this priority and status belongs to.
pub fn column_of(priority: TaskPriority, status: TaskStatus) -> (col: usize)
    ensures
        col == spec_column_of(priority, status),
        col < COLUMN_COUNT,
{
    match (priority, status) {
        (TaskPriority::High, TaskStatus::Pending) => COL_PENDING_HIGH,
        (TaskPriority::Medium, TaskStatus::Pending) => COL_PENDING_MEDIUM,
        (TaskPriority::Low, TaskStatus::Pending) => COL_PENDING_LOW,
        (TaskPriority::High, TaskStatus::WorkInProgress) => COL_WIP_HIGH,
        (TaskPriority::Medium, TaskStatus::WorkInProgress) => COL_WIP_MEDIUM,
        (TaskPriority::Low, TaskStatus::WorkInProgress) => COL_WIP_LOW,
        (_, TaskStatus::Complete) => COL_COMPLETE,
        (_, TaskStatus::Canceled) => COL_CANCELED,
    }
}

/// The board itself: one list of cards per column.
pub struct KanbanArea {
    columns: Vec<Vec<Task>>,
}

impl View for KanbanArea {
    type V = Seq<Seq<Task>>;

    closed spec fn view(&self) -> Seq<Seq<Task>> {
        self.columns@.map_values(|c: Vec<Task>| c@)
    }
}

fn empty_columns() -> (columns: Vec<Vec<Task>>)
    ensures
        columns@.len() == COLUMN_COUNT,
        columns@.map_values(|c: Vec<Task>| c@) == empty_board(),
{
    let mut columns: Vec<Vec<Task>> = Vec::new();
    let mut i: usize = 0;
    while i < COLUMN_COUNT
        invariant
            i <= COLUMN_COUNT,
            columns@.len() == i,
            forall|c: int| 0 <= c < i ==> (#[trigger] columns@[c])@ == Seq::<Task>::empty(),
        decreases COLUMN_COUNT - i,
    {
        columns.push(Vec::new());
        i = i + 1;
    }
    assert(columns@.map_values(|c: Vec<Task>| c@) =~= empty_board());
    columns
}

impl Default for KanbanArea {
    fn default() -> (area: Self)
        ensures
            area@ == empty_board(),
    {
        KanbanArea { columns: empty_columns() }
    }
}

impl KanbanArea {
    /// The board always has its eight columns.
    #[verifier::type_invariant]
    spec fn has_all_columns(self) -> bool {
        self.columns@.len() == COLUMN_COUNT
    }

    /// The cards of one column, top to bottom.
    pub fn column(&self, col: usize) -> (cards: &Vec<Task>)
        requires
            col < COLUMN_COUNT,
        ensures
            self@.len() == COLUMN_COUNT,
            cards@ == self@[col as int],
    {
        proof {
            use_type_invariant(self);
        }
        &self.columns[col]
    }

    /// Sorts `tasks` into the columns by priority and status, after the cards
    /// already on the board.
    pub fn set_tasks(&mut self, tasks: &[Task])
        ensures
            old(self)@.len() == COLUMN_COUNT,
            final(self)@ == sorted_onto(old(self)@, tasks@),
    {
        proof {
            use_type_invariant(&*self);
        }
        let ghost start = self@;
        let mut columns = empty_columns();
        std::mem::swap(&mut self.columns, &mut columns);
        assert(columns@.map_values(|c: Vec<Task>| c@) == start);
        let mut i: usize = 0;
        while i < tasks.len()
            invariant
                i <= tasks@.len(),
                columns@.len() == COLUMN_COUNT,
                start.len() == COLUMN_COUNT,
                forall|c: int|
                    0 <= c < COLUMN_COUNT ==> (#[trigger] columns@[c])@ == start[c]
                        + column_share(tasks@.take(i as int), c),
            decreases tasks@.len() - i,
        {
            let task = tasks[i].duplicate();
            let col = column_of(task.priority, task.status);
            let ghost before = columns@;
            columns[col].push(task);
            proof {
                assert(tasks@.take(i + 1) =~= tasks@.take(i as int).push(tasks@[i as int]));
                assert forall|c: int| 0 <= c < COLUMN_COUNT implies (#[trigger] columns@[c])@
                    == start[c] + column_share(tasks@.take(i + 1), c) by {
                    let pc = |t: Task| spec_column_of(t.priority, t.status) == c;
                    tasks@.take(i as int).lemma_filter_push(tasks@[i as int], pc);
                    if c == col {
                        assert(columns@[c]@ =~= before[c]@.push(task));
                    } else {
                        assert(columns@[c] == before[c]);
                    }
                }
            }
            i = i + 1;
        }
        assert(tasks@.take(tasks@.len() as int) =~= tasks@);
        self.columns = columns;
        assert(self@ =~= sorted_onto(start, tasks@));
    }

    /// Empties every column, handing back what they held.
    pub fn pop_columns(&mut self) -> (columns: Vec<Vec<Task>>)
        ensures
            old(self)@.len() == COLUMN_COUNT,
            columns@.len() == COLUMN_COUNT,
            columns@.map_values(|c: Vec<Task>| c@) == old(self)@,
            final(self)@ == empty_board(),
    {
        proof {
            use_type_invariant(&*self);
        }
        let mut columns = empty_columns();
        std::mem::swap(&mut self.columns, &mut columns);
        columns
    }

    /// Moves the card at `from` to `to`. A `from` past the end of its column
    /// leaves the board as it is.
    pub fn move_item(&mut self, from: Location, to: Location)
        requires
            from.col < COLUMN_COUNT,
            to.col < COLUMN_COUNT,
        ensures
            old(self)@.len() == COLUMN_COUNT,
            final(self)@ == spec_move(old(self)@, from, to),
    {
        proof {
            use_type_invariant(&*self);
        }
        let ghost board = self@;
        let mut to_row = to.row;
        if from.col == to.col && from.row < to.row {
            to_row = to_row - 1;
        }
        if from.row >= self.columns[from.col].len() {
            return;
        }
        let mut columns = empty_columns();
        std::mem::swap(&mut self.columns, &mut columns);
        assert(columns@.map_values(|c: Vec<Task>| c@) == board);
        let item = columns[from.col].remove(from.row);
        let ghost lifted = columns@;
        assert(lifted.map_values(|c: Vec<Task>| c@) =~= board.update(
            from.col as int,
            board[from.col as int].remove(from.row as int),
        ));
        let target_len = columns[to.col].len();
        let at = if to_row < target_len {
            to_row
        } else {
            target_len
        };
        columns[to.col].insert(at, item);
        self.columns = columns;
        assert(self@ =~= spec_move(board, from, to));
    }

    /// A double click at `loc`: if a card is there, a copy of its task
    /// becomes the task being edited and the edit-task screen comes next;
    /// otherwise nothing changes. The board is left as it is.
    pub fn on_card_double_click(&self, loc: Location, task: &mut Task, next_page: &mut Pages)
        requires
            loc.col < COLUMN_COUNT,
        ensures
            self@.len() == COLUMN_COUNT,
            if loc.row < self@[loc.col as int].len() {
                &&& *final(task) == self@[loc.col as int][loc.row as int]
                &&& *final(next_page) == Pages::EditTask
            } else {
                &&& *final(task) == *old(task)
                &&& *final(next_page) == *old(next_page)
            },
    {
        proof {
            use_type_invariant(self);
        }
        if loc.row < self.columns[loc.col].len() {
            *task = self.columns[loc.col][loc.row].duplicate();
            *next_page = Pages::EditTask;
        }
    }
}

/// The row a dragged card would land at if released over the card at
/// `current`: over itself, or over the upper half of another card, it goes
/// before that card; over the lower half, after it.
pub fn drop_row(hovered: Location, current: Location, pointer_above_center: bool) -> (row: usize)
    requires
        current.row < usize::MAX,
    ensures
        row == if hovered == current || pointer_above_center {
            current.row as int
        } else {
            current.row + 1
        },
{
    if hovered == current {
        current.row
    } else if pointer_above_center {
        current.row
    } else {
        current.row + 1
    }
}

/// The caption of a column.
#[derive(Clone, Copy, Debug, PartialEq, Eq, Structural)]
pub enum ColumnLabel {
    /// A status and a priority, shown as the two texts separated by a space.
    Pair(Message, Message),
    /// One text.
    Single(Message),
    /// A column outside the board, shown as "Area" and this number.
    Area(usize),
}

/// The caption of column `col_idx`.
pub open spec fn spec_column_label(col_idx: int) -> ColumnLabel {
    if col_idx == 0 {
        ColumnLabel::Pair(Message::Pending, Message::High)
    } else if col_idx == 1 {
        ColumnLabel::Pair(Message::Pending, Message::Medium)
    } else if col_idx == 2 {
        ColumnLabel::Pair(Message::Pending, Message::Low)
    } else if col_idx == 3 {
        ColumnLabel::Pair(Message::WorkInProgress, Message::High)
    } else if col_idx == 4 {
        ColumnLabel::Pair(Message::WorkInProgress, Message::Medium)
    } else if col_idx == 5 {
        ColumnLabel::Pair(Message::WorkInProgress, Message::Low)
    } else if col_idx == 6 {
        ColumnLabel::Single(Message::Complete)
    } else if col_idx == 7 {
        ColumnLabel::Single(Message::Cancel)
    } else {
        ColumnLabel::Area((col_idx + 1) as usize)
    }
}

/// Header label for a column.
pub fn column_label(col_idx: usize) -> (label: ColumnLabel)
    requires
        col_idx < usize::MAX,
    ensures
        label == spec_column_label(col_idx as int),
{
    match col_idx {
        COL_PENDING_HIGH => ColumnLabel::Pair(Message::Pending, Message::High),
        COL_PENDING_MEDIUM => ColumnLabel::Pair(Message::Pending, Message::Medium),
        COL_PENDING_LOW => ColumnLabel::Pair(Message::Pending, Message::Low),
        COL_WIP_HIGH => ColumnLabel::Pair(Message::WorkInProgress, Message::High),
        COL_WIP_MEDIUM => ColumnLabel::Pair(Message::WorkInProgress, Message::Medium),
        COL_WIP_LOW => ColumnLabel::Pair(Message::WorkInProgress, Message::Low),
        COL_COMPLETE => ColumnLabel::Single(Message::Complete),
        COL_CANCELED => ColumnLabel::Single(Message::Cancel),
        _ => ColumnLabel::Area(col_idx + 1),
    }
}

/// Background color of a column as red, green, blue: red for high priority,
/// yellow for medium, green for low, teal for complete, gray otherwise.
pub fn column_fill_color(col_idx: usize) -> (rgb: (u8, u8, u8))
    ensures
        rgb == if col_idx == 0 || col_idx == 3 {
            (80u8, 0u8, 0u8)
        } else if col_idx == 1 || col_idx == 4 {
            (80u8, 80u8, 0u8)
        } else if col_idx == 2 || col_idx == 5 {
            (0u8, 80u8, 0u8)
        } else if col_idx == 6 {
            (0u8, 80u8, 80u8)
        } else {
            (40u8, 40u8, 40u8)
        },
{
    match col_idx {
        COL_PENDING_HIGH | COL_WIP_HIGH => (80, 0, 0),
        COL_PENDING_MEDIUM | COL_WIP_MEDIUM => (80, 80, 0),
        COL_PENDING_LOW | COL_WIP_LOW => (0, 80, 0),
        COL_COMPLETE => (0, 80, 80),
        _ => (40, 40, 40),
    }
}


proof fn lemma_cards_update(board: Seq<Seq<Task>>, i: int, s: Seq<Task>)
    requires
        0 <= i < board.len(),
    ensures
        cards(board.update(i, s)).add(board[i].to_multiset()) == cards(board).add(s.to_multiset()),
    decreases board.len(),
{
    broadcast use vstd::multiset::group_multiset_axioms;
    let updated = board.update(i, s);
    let lhs = cards(updated).add(board[i].to_multiset());
    let rhs = cards(board).add(s.to_multiset());
    assert(cards(updated) == cards(updated.drop_last()).add(updated.last().to_multiset()));
    assert(cards(board) == cards(board.drop_last()).add(board.last().to_multiset()));
    if i == board.len() - 1 {
        assert(updated.drop_last() =~= board.drop_last());
        assert forall|x: Task| lhs.count(x) == rhs.count(x) by {}
    } else {
        lemma_cards_update(board.drop_last(), i, s);
        assert(updated.drop_last() =~= board.drop_last().update(i, s));
        let inner = cards(board.drop_last().update(i, s));
        assert forall|x: Task| lhs.count(x) == rhs.count(x) by {
            assert(inner.add(board[i].to_multiset()).count(x) == cards(board.drop_last()).add(
                s.to_multiset(),
            ).count(x));
        }
    }
    assert(lhs =~= rhs);
}

proof fn lemma_remove_to_multiset(s: Seq<Task>, r: int)
    requires
        0 <= r < s.len(),
    ensures
        s.remove(r).to_multiset().insert(s[r]) == s.to_multiset(),
{
    broadcast use vstd::multiset::group_multiset_axioms;
    s.to_multiset_ensures();
    assert(s.contains(s[r]));
    assert(s.remove(r).to_multiset().insert(s[r]) =~= s.to_multiset());
}

proof fn lemma_insert_to_multiset(s: Seq<Task>, k: int, x: Task)
    requires
        0 <= k <= s.len(),
    ensures
        s.insert(k, x).to_multiset() == s.to_multiset().insert(x),
{
    let t = s.insert(k, x);
    s.insert_ensures(k, x);
    assert(t.remove(k) =~= s);
    lemma_remove_to_multiset(t, k);
}

/// Dragging a card from one place on the board to another neither loses nor
/// duplicates a card: the board holds the same cards, as many times each.
pub proof fn lemma_move_keeps_cards(board: Seq<Seq<Task>>, from: Location, to: Location)
    requires
        board.len() == COLUMN_COUNT,
        from.col < COLUMN_COUNT,
        to.col < COLUMN_COUNT,
    ensures
        cards(spec_move(board, from, to)) == cards(board),
{
    broadcast use vstd::multiset::group_multiset_axioms;
    if from.row < board[from.col as int].len() {
        let a = from.col as int;
        let b = to.col as int;
        let item = board[a][from.row as int];
        let ra = board[a].remove(from.row as int);
        let lifted = board.update(a, ra);
        let k = landing_row(board, from, to);
        let tb = lifted[b].insert(k, item);
        lemma_cards_update(board, a, ra);
        lemma_remove_to_multiset(board[a], from.row as int);
        assert forall|x: Task| #[trigger] cards(lifted).insert(item).count(x) == cards(board).count(x) by {
            assert(cards(lifted).add(board[a].to_multiset()).count(x) == cards(board).add(ra.to_multiset()).count(x));
            assert(board[a].to_multiset().count(x) == ra.to_multiset().insert(item).count(x));
        }
        assert(cards(lifted).insert(item) =~= cards(board));
        lemma_cards_update(lifted, b, tb);
        lemma_insert_to_multiset(lifted[b], k, item);
        assert forall|x: Task| #[trigger] cards(lifted.update(b, tb)).count(x) == cards(lifted).insert(item).count(x) by {
            assert(cards(lifted.update(b, tb)).add(lifted[b].to_multiset()).count(x) == cards(lifted).add(tb.to_multiset()).count(x));
            assert(tb.to_multiset().count(x) == lifted[b].to_multiset().insert(item).count(x));
        }
        assert(cards(lifted.update(b, tb)) =~= cards(lifted).insert(item));
    }
}

/// A card dragged to another column and then dragged back to the row it came
/// from leaves the board as it was.
pub proof fn lemma_move_across_and_back(board: Seq<Seq<Task>>, from: Location, to: Location)
    requires
        board.len() == COLUMN_COUNT,
        from.col < COLUMN_COUNT,
        to.col < COLUMN_COUNT,
        from.col != to.col,
        from.row < board[from.col as int].len(),
    ensures
        spec_move(
            spec_move(board, from, to),
            Location { col: to.col, row: landing_row(board, from, to) as usize },
            from,
        ) == board,
{
    let a = from.col as int;
    let b = to.col as int;
    let r = from.row as int;
    let item = board[a][r];
    let ra = board[a].remove(r);
    let k = landing_row(board, from, to);
    let moved = spec_move(board, from, to);
    let tb = board[b].insert(k, item);
    board[b].insert_ensures(k, item);
    assert(moved == board.update(a, ra).update(b, tb));
    let back = Location { col: to.col, row: k as usize };
    assert(moved[b][k] == item);
    assert(tb.remove(k) =~= board[b]);
    assert(landing_row(moved, back, from) == r);
    assert(ra.insert(r, item) =~= board[a]);
    assert(spec_move(moved, back, from) =~= board);
}

/// The board after `tasks` are sorted onto `board`.
pub open spec fn sorted_onto(board: Seq<Seq<Task>>, tasks: Seq<Task>) -> Seq<Seq<Task>> {
    Seq::new(COLUMN_COUNT as nat, |c: int| board[c] + column_share(tasks, c))
}

/// Sorting tasks onto the board neither loses nor duplicates a task: the
/// board then holds the cards it held and every sorted task, once each.
pub proof fn lemma_sort_keeps_tasks(board: Seq<Seq<Task>>, tasks: Seq<Task>)
    requires
        board.len() == COLUMN_COUNT,
    ensures
        cards(sorted_onto(board, tasks)) == cards(board).add(tasks.to_multiset()),
    decreases tasks.len(),
{
    broadcast use vstd::multiset::group_multiset_axioms;
    if tasks.len() == 0 {
        assert forall|c: int| 0 <= c < COLUMN_COUNT implies column_share(tasks, c) =~= Seq::<Task>::empty() by {
            reveal(Seq::filter);
        }
        assert(sorted_onto(board, tasks) =~= board);
        tasks.to_multiset_ensures();
        assert(tasks.to_multiset() =~= Multiset::empty());
        assert(cards(board).add(tasks.to_multiset()) =~= cards(board));
    } else {
        let rest = tasks.drop_last();
        let x = tasks.last();
        assert(tasks =~= rest.push(x));
        lemma_sort_keeps_tasks(board, rest);
        let before = sorted_onto(board, rest);
        let col = spec_column_of(x.priority, x.status);
        assert forall|c: int| 0 <= c < COLUMN_COUNT implies #[trigger] column_share(tasks, c) == if c
            == col {
            column_share(rest, c).push(x)
        } else {
            column_share(rest, c)
        } by {
            rest.lemma_filter_push(x, |t: Task| spec_column_of(t.priority, t.status) == c);
        }
        assert(sorted_onto(board, tasks) =~= before.update(col, before[col].push(x)));
        lemma_cards_update(before, col, before[col].push(x));
        before[col].to_multiset_ensures();
        rest.to_multiset_ensures();
        let after = sorted_onto(board, tasks);
        assert forall|v: Task| #[trigger] cards(after).count(v) == cards(board).add(tasks.to_multiset()).count(v) by {
            assert(cards(after).add(before[col].to_multiset()).count(v) == cards(before).add(before[col].push(x).to_multiset()).count(v));
        }
        assert(cards(after) =~= cards(board).add(tasks.to_multiset()));
    }
}

proof fn lemma_cards_of_empty_columns(board: Seq<Seq<Task>>)
    requires
        forall|c: int| 0 <= c < board.len() ==> (#[trigger] board[c]).len() == 0,
    ensures
        cards(board) == Multiset::<Task>::empty(),
    decreases board.len(),
{
    broadcast use vstd::multiset::group_multiset_axioms;
    if board.len() > 0 {
        lemma_cards_of_empty_columns(board.drop_last());
        assert(board.last() =~= Seq::<Task>::empty());
        Seq::<Task>::empty().to_multiset_ensures();
        assert(Multiset::<Task>::empty().add(board.last().to_multiset()) =~= Multiset::empty());
    }
}

/// An empty board holds no card.
pub proof fn lemma_empty_board_has_no_cards()
    ensures
        cards(empty_board()) == Multiset::<Task>::empty(),
        empty_board().len() == COLUMN_COUNT,
{
    lemma_cards_of_empty_columns(empty_board());
}

/// One change made to the board between two emptyings of it.
pub enum BoardStep {
    /// Tasks sorted onto the board.
    Fill(Seq<Task>),
    /// A card dragged from one place on the board and dropped at another.
    Drag(Location, Location),
}

/// The board after `steps`, taken in order, starting from `board`.
pub open spec fn run_steps(board: Seq<Seq<Task>>, steps: Seq<BoardStep>) -> Seq<Seq<Task>>
    decreases steps.len(),
{
    if steps.len() == 0 {
        board
    } else {
        let before = run_steps(board, steps.drop_last());
        match steps.last() {
            BoardStep::Fill(tasks) => sorted_onto(before, tasks),
            BoardStep::Drag(from, to) => spec_move(before, from, to),
        }
    }
}

/// Every task sorted onto the board by `steps`, counted with multiplicity.
pub open spec fn filled(steps: Seq<BoardStep>) -> Multiset<Task>
    decreases steps.len(),
{
    if steps.len() == 0 {
        Multiset::empty()
    } else {
        filled(steps.drop_last()).add(
            match steps.last() {
                BoardStep::Fill(tasks) => tasks.to_multiset(),
                BoardStep::Drag(_, _) => Multiset::empty(),
            },
        )
    }
}

/// Every drag of `steps` starts and ends in a column of the board.
pub open spec fn drags_on_board(steps: Seq<BoardStep>) -> bool {
    forall|i: int|
        0 <= i < steps.len() ==> (#[trigger] steps[i] matches BoardStep::Drag(from, to) ==> from.col
            < COLUMN_COUNT && to.col < COLUMN_COUNT)
}

proof fn lemma_move_keeps_columns(board: Seq<Seq<Task>>, from: Location, to: Location)
    requires
        board.len() == COLUMN_COUNT,
        from.col < COLUMN_COUNT,
        to.col < COLUMN_COUNT,
    ensures
        spec_move(board, from, to).len() == COLUMN_COUNT,
{
}

/// Whatever tasks are sorted onto the board and whatever cards are dragged
/// around it, in any order, the board keeps its eight columns and holds
/// exactly the cards it held and the tasks sorted onto it: no card is
/// created, duplicated or lost. From an empty board, what
/// `KanbanArea::pop_columns` then hands back is exactly what was sorted
/// onto it since.
pub proof fn lemma_steps_keep_cards(board: Seq<Seq<Task>>, steps: Seq<BoardStep>)
    requires
        board.len() == COLUMN_COUNT,
        drags_on_board(steps),
    ensures
        run_steps(board, steps).len() == COLUMN_COUNT,
        cards(run_steps(board, steps)) == cards(board).add(filled(steps)),
    decreases steps.len(),
{
    broadcast use vstd::multiset::group_multiset_axioms;
    if steps.len() == 0 {
        assert(cards(board).add(Multiset::empty()) =~= cards(board));
    } else {
        let rest = steps.drop_last();
        assert forall|i: int| 0 <= i < rest.len() implies (#[trigger] rest[i] matches BoardStep::Drag(
            from,
            to,
        ) ==> from.col < COLUMN_COUNT && to.col < COLUMN_COUNT) by {
            assert(rest[i] == steps[i]);
        }
        lemma_steps_keep_cards(board, rest);
        let before = run_steps(board, rest);
        assert(steps[steps.len() - 1] == steps.last());
        match steps.last() {
            BoardStep::Fill(tasks) => {
                lemma_sort_keeps_tasks(before, tasks);
                assert(cards(board).add(filled(rest)).add(tasks.to_multiset()) =~= cards(board).add(
                    filled(steps),
                ));
            },
            BoardStep::Drag(from, to) => {
                lemma_move_keeps_cards(before, from, to);
                lemma_move_keeps_columns(before, from, to);
                assert(filled(steps) =~= filled(rest));
            },
        }
    }
}

/// A card dragged upward within its column, or dropped on its own place,
/// lands exactly at the row it was dropped on: the cards above that row stay
/// where they were, those between the drop row and the card's old row move
/// one row down, those below its old row stay, and the other columns are
/// untouched.
pub proof fn lemma_move_up_lands_at_drop_row(board: Seq<Seq<Task>>, from: Location, to: Location)
    requires
        board.len() == COLUMN_COUNT,
        from.col < COLUMN_COUNT,
        to.col == from.col,
        from.row < board[from.col as int].len(),
        to.row <= from.row,
    ensures
        spec_move(board, from, to).len() == COLUMN_COUNT,
        spec_move(board, from, to)[from.col as int].len() == board[from.col as int].len(),
        spec_move(board, from, to)[from.col as int][to.row as int] == board[from.col as int][from.row as int],
        forall|i: int|
            0 <= i < to.row ==> #[trigger] spec_move(board, from, to)[from.col as int][i]
                == board[from.col as int][i],
        forall|i: int|
            to.row < i <= from.row ==> #[trigger] spec_move(board, from, to)[from.col as int][i]
                == board[from.col as int][i - 1],
        forall|i: int|
            from.row < i < board[from.col as int].len() ==> #[trigger] spec_move(board, from, to)[from.col as int][i]
                == board[from.col as int][i],
        forall|k: int|
            0 <= k < COLUMN_COUNT && k != from.col ==> #[trigger] spec_move(board, from, to)[k] == board[k],
{
    let c = from.col as int;
    let col = board[c];
    let removed = col.remove(from.row as int);
    col.remove_ensures(from.row as int);
    removed.insert_ensures(to.row as int, col[from.row as int]);
    assert(landing_row(board, from, to) == to.row);
}

/// A card dropped on its own place leaves the board as it was.
pub proof fn lemma_drop_on_itself(board: Seq<Seq<Task>>, from: Location)
    requires
        board.len() == COLUMN_COUNT,
        from.col < COLUMN_COUNT,
    ensures
        spec_move(board, from, from) == board,
{
    if from.row < board[from.col as int].len() {
        lemma_move_up_lands_at_drop_row(board, from, from);
        let moved = spec_move(board, from, from);
        assert forall|k: int| 0 <= k < COLUMN_COUNT implies moved[k] =~= board[k] by {
            if k == from.col {
                assert forall|i: int| 0 <= i < board[k].len() implies moved[k][i] == board[k][i] by {
                    if i < from.row {
                    } else if i == from.row {
                    } else {
                    }
                }
            }
        }
        assert(moved =~= board);
    }
}

/// A card dragged downward within its column lands just above the card it
/// was dropped on (a drop past the last card puts it last): the cards above
/// its old row stay, those between its old row and its landing row move one
/// row up, those below stay, and the other columns are untouched.
pub proof fn lemma_move_down_lands_above_drop_card(board: Seq<Seq<Task>>, from: Location, to: Location)
    requires
        board.len() == COLUMN_COUNT,
        from.col < COLUMN_COUNT,
        to.col == from.col,
        from.row < to.row,
        from.row < board[from.col as int].len(),
    ensures
        ({
            let len = board[from.col as int].len() as int;
            let land = if to.row <= len { to.row - 1 } else { len - 1 };
            let moved = spec_move(board, from, to)[from.col as int];
            &&& moved.len() == len
            &&& moved[land] == board[from.col as int][from.row as int]
            &&& forall|i: int| 0 <= i < from.row ==> #[trigger] moved[i] == board[from.col as int][i]
            &&& forall|i: int| from.row <= i < land ==> #[trigger] moved[i] == board[from.col as int][i + 1]
            &&& forall|i: int| land < i < len ==> #[trigger] moved[i] == board[from.col as int][i]
        }),
        forall|k: int|
            0 <= k < COLUMN_COUNT && k != from.col ==> #[trigger] spec_move(board, from, to)[k] == board[k],
{
    let c = from.col as int;
    let col = board[c];
    let removed = col.remove(from.row as int);
    col.remove_ensures(from.row as int);
    let land = landing_row(board, from, to);
    removed.insert_ensures(land, col[from.row as int]);
}

/// A card dragged to another column leaves its own column, whose later
/// cards move one row up, and lands in the target column at the row it was
/// dropped on (a drop past the last card puts it last), the target's cards
/// from that row on moving one row down; the other columns are untouched.
pub proof fn lemma_move_across_lands_at_drop_row(board: Seq<Seq<Task>>, from: Location, to: Location)
    requires
        board.len() == COLUMN_COUNT,
        from.col < COLUMN_COUNT,
        to.col < COLUMN_COUNT,
        from.col != to.col,
        from.row < board[from.col as int].len(),
    ensures
        ({
            let src = board[from.col as int];
            let dst = board[to.col as int];
            let land = if to.row <= dst.len() { to.row as int } else { dst.len() as int };
            let moved = spec_move(board, from, to);
            &&& moved.len() == COLUMN_COUNT
            &&& moved[from.col as int] == src.remove(from.row as int)
            &&& moved[to.col as int].len() == dst.len() + 1
            &&& moved[to.col as int][land] == src[from.row as int]
            &&& forall|i: int| 0 <= i < land ==> #[trigger] moved[to.col as int][i] == dst[i]
            &&& forall|i: int| land < i <= dst.len() ==> #[trigger] moved[to.col as int][i] == dst[i - 1]
            &&& forall|k: int|
                0 <= k < COLUMN_COUNT && k != from.col && k != to.col ==> #[trigger] moved[k] == board[k]
        }),
{
    let src = board[from.col as int];
    let dst = board[to.col as int];
    let land = landing_row(board, from, to);
    dst.insert_ensures(land, src[from.row as int]);
    assert forall|i: int| land < i <= dst.len() implies spec_move(board, from, to)[to.col as int][i] == dst[i - 1] by {
        assert(dst.insert(land, src[from.row as int])[(i - 1) + 1] == dst[i - 1]);
    }
}

} // verus!

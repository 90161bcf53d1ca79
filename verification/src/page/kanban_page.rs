//! The kanban screen: loads the tasks onto the board when they arrive, and
//! when the screen is left turns every card's column back into the task's
//! priority and status, to be saved.

use vstd::prelude::*;
use vstd::multiset::Multiset;
use crate::flags::{
    TaskFilterFlags, TaskOrderFlags, FILTER_ALL, FILTER_INACTIVE, ORDER_ALL, ORDER_BY_DUE_DATE,
    ORDER_BY_PRIORITY, ORDER_REVERSED,
};
use crate::page::Pages;
use crate::task::{Task, TaskPriority, TaskStatus};
use crate::widget::kanban_area::{
    cards, column_share, empty_board, lemma_empty_board_has_no_cards, lemma_sort_keeps_tasks, sorted_onto, spec_column_of, spec_move, KanbanArea, Location, COLUMN_COUNT,
    COL_CANCELED, COL_COMPLETE, COL_PENDING_HIGH, COL_PENDING_LOW, COL_PENDING_MEDIUM, COL_WIP_HIGH, COL_WIP_LOW,
    COL_WIP_MEDIUM,
};

verus! {

/// The task as the card in column `col` says it is: the column's priority
/// and status replace the task's own (complete and canceled cards keep their
/// priority).
pub open spec fn settle(col: int, t: Task) -> Task {
    let (priority, status) = if col == 0 {
        (TaskPriority::High, TaskStatus::Pending)
    } else if col == 1 {
        (TaskPriority::Medium, TaskStatus::Pending)
    } else if col == 2 {
        (TaskPriority::Low, TaskStatus::Pending)
    } else if col == 3 {
        (TaskPriority::High, TaskStatus::WorkInProgress)
    } else if col == 4 {
        (TaskPriority::Medium, TaskStatus::WorkInProgress)
    } else if col == 5 {
        (TaskPriority::Low, TaskStatus::WorkInProgress)
    } else if col == 6 {
        (t.priority, TaskStatus::Complete)
    } else {
        (t.priority, TaskStatus::Canceled)
    };
    Task {
        id: t.id,
        project: t.project,
        title: t.title,
        detail: t.detail,
        priority,
        status,
    }
}

/// The cards of column `col`, settled.
pub open spec fn settled_column(col: int, cards: Seq<Task>) -> Seq<Task> {
    Seq::new(cards.len(), |i: int| settle(col, cards[i]))
}

/// The settled cards of the first `n` columns, column by column, top to bottom.
pub open spec fn settled_cards(board: Seq<Seq<Task>>, n: int) -> Seq<Task>
    decreases n,
{
    if n <= 0 {
        Seq::empty()
    } else {
        settled_cards(board, n - 1) + settled_column(n - 1, board[n - 1])
    }
}

/// The filter and order with which the kanban screen asks for tasks: every
/// task but the inactive ones, by priority and due date, reversed.
pub fn default_fetch_flags() -> (flags: (TaskFilterFlags, TaskOrderFlags))
    ensures
        flags.0@ == FILTER_ALL & !FILTER_INACTIVE,
        flags.1@ == ORDER_BY_PRIORITY | ORDER_BY_DUE_DATE | ORDER_REVERSED,
{
    let filter_flag = TaskFilterFlags::all().difference(TaskFilterFlags::from_bits_truncate(FILTER_INACTIVE));
    let order_flag = TaskOrderFlags::from_bits_truncate(ORDER_BY_PRIORITY).union(
        TaskOrderFlags::from_bits_truncate(ORDER_BY_DUE_DATE),
    ).union(TaskOrderFlags::from_bits_truncate(ORDER_REVERSED));
    assert(FILTER_INACTIVE & FILTER_ALL == FILTER_INACTIVE) by (bit_vector);
    assert(ORDER_BY_PRIORITY & ORDER_ALL == ORDER_BY_PRIORITY) by (bit_vector);
    assert(ORDER_BY_DUE_DATE & ORDER_ALL == ORDER_BY_DUE_DATE) by (bit_vector);
    assert(ORDER_REVERSED & ORDER_ALL == ORDER_REVERSED) by (bit_vector);
    (filter_flag, order_flag)
}

fn settle_column(col: usize, cards: &Vec<Task>, out: &mut Vec<Task>)
    requires
        col < COLUMN_COUNT,
    ensures
        final(out)@ == old(out)@ + settled_column(col as int, cards@),
{
    let ghost start = out@;
    let mut i: usize = 0;
    while i < cards.len()
        invariant
            col < COLUMN_COUNT,
            i <= cards@.len(),
            out@ == start + settled_column(col as int, cards@.take(i as int)),
        decreases cards@.len() - i,
    {
        let mut task = cards[i].duplicate();
        if col == COL_PENDING_HIGH {
            task.priority = TaskPriority::High;
            task.status = TaskStatus::Pending;
        } else if col == COL_PENDING_MEDIUM {
            task.priority = TaskPriority::Medium;
            task.status = TaskStatus::Pending;
        } else if col == COL_PENDING_LOW {
            task.priority = TaskPriority::Low;
            task.status = TaskStatus::Pending;
        } else if col == COL_WIP_HIGH {
            task.priority = TaskPriority::High;
            task.status = TaskStatus::WorkInProgress;
        } else if col == COL_WIP_MEDIUM {
            task.priority = TaskPriority::Medium;
            task.status = TaskStatus::WorkInProgress;
        } else if col == COL_WIP_LOW {
            task.priority = TaskPriority::Low;
            task.status = TaskStatus::WorkInProgress;
        } else if col == COL_COMPLETE {
            task.status = TaskStatus::Complete;
        } else {
            task.status = TaskStatus::Canceled;
        }
        out.push(task);
        assert(settled_column(col as int, cards@.take(i + 1)) =~= settled_column(
            col as int,
            cards@.take(i as int),
        ).push(settle(col as int, cards@[i as int])));
        i = i + 1;
    }
    assert(cards@.take(cards@.len() as int) =~= cards@);
}

/// The state of the kanban screen.
pub struct KanbanPage {
    kanban_area: KanbanArea,
    back_page: Pages,
    kanban_ready: bool,
}

impl KanbanPage {
    /// The board shown.
    pub closed spec fn board(&self) -> Seq<Seq<Task>> {
        self.kanban_area@
    }

    /// Whether the tasks have been put on the board.
    pub closed spec fn ready(&self) -> bool {
        self.kanban_ready
    }

    /// The screen the back button leads to.
    pub closed spec fn back(&self) -> Pages {
        self.back_page
    }

    /// An empty board, not loaded yet, going back to the main screen.
    pub fn new() -> (page: Self)
        ensures
            page.board() == empty_board(),
            !page.ready(),
            page.back() == Pages::Main,
    {
        KanbanPage { kanban_area: KanbanArea::default(), back_page: Pages::Main, kanban_ready: false }
    }

    /// The board.
    pub fn kanban_area(&self) -> (area: &KanbanArea)
        ensures
            area@ == self.board(),
    {
        &self.kanban_area
    }

    /// The screen the back button leads to.
    pub fn back_page(&self) -> (page: Pages)
        ensures
            page == self.back(),
    {
        self.back_page
    }

    /// Entering the screen: the board is cleared and the task list dropped,
    /// so that the tasks are fetched again.
    pub fn on_entry(&mut self, tasks: &mut Option<Vec<Task>>)
        ensures
            final(self).board() == empty_board(),
            !final(self).ready(),
            final(self).back() == old(self).back(),
            *final(tasks) is None,
    {
        self.kanban_area.pop_columns();
        self.kanban_ready = false;
        *tasks = None;
    }

    /// Drawing the board: while requests run a spinner shows instead (the
    /// result is false); once the task list has arrived it is put on the
    /// board, a single time.
    pub fn load(&mut self, requests_idle: bool, tasks: &Option<Vec<Task>>) -> (shown: bool)
        ensures
            shown == requests_idle,
            final(self).back() == old(self).back(),
            (final(self).board(), final(self).ready()) == spec_load(
                old(self).board(),
                old(self).ready(),
                requests_idle,
                match tasks {
                    Some(v) => Some(v@),
                    None => None,
                },
            ),
            if requests_idle && !old(self).ready() && tasks.is_some() {
                &&& final(self).board() == sorted_onto(old(self).board(), tasks.unwrap()@)
                &&& final(self).ready()
            } else {
                &&& final(self).board() == old(self).board()
                &&& final(self).ready() == old(self).ready()
            },
    {
        if !requests_idle {
            return false;
        }
        if !self.kanban_ready {
            if let Some(list) = tasks {
                self.kanban_area.set_tasks(list.as_slice());
                self.kanban_ready = true;
            }
        }
        true
    }

    /// A card dragged from `from` and dropped at `to`.
    pub fn move_item(&mut self, from: Location, to: Location)
        requires
            from.col < COLUMN_COUNT,
            to.col < COLUMN_COUNT,
        ensures
            final(self).board() == spec_move(old(self).board(), from, to),
            final(self).ready() == old(self).ready(),
            final(self).back() == old(self).back(),
    {
        self.kanban_area.move_item(from, to);
    }

    /// A double click at `loc`: if a card is there, a copy of its task
    /// becomes the task being edited and the edit-task screen comes next;
    /// otherwise nothing changes. The board is left as it is.
    pub fn on_card_double_click(&self, loc: Location, task: &mut Task, next_page: &mut Pages)
        requires
            loc.col < COLUMN_COUNT,
        ensures
            if loc.row < self.board()[loc.col as int].len() {
                &&& *final(task) == self.board()[loc.col as int][loc.row as int]
                &&& *final(next_page) == Pages::EditTask
            } else {
                &&& *final(task) == *old(task)
                &&& *final(next_page) == *old(next_page)
            },
    {
        self.kanban_area.on_card_double_click(loc, task, next_page);
    }

    /// Leaving the screen: the board is emptied and every card, settled into
    /// the priority and status of its column, is handed back to be saved,
    /// column by column and top to bottom; the task list is dropped so that
    /// it is fetched again.
    pub fn on_exit(&mut self, tasks: &mut Option<Vec<Task>>) -> (saved: Vec<Task>)
        ensures
            saved@ == settled_cards(old(self).board(), COLUMN_COUNT as int),
            final(self).board() == empty_board(),
            final(self).ready() == old(self).ready(),
            final(self).back() == old(self).back(),
            *final(tasks) is None,
    {
        let ghost board = self.kanban_area@;
        let columns = self.kanban_area.pop_columns();
        let mut saved: Vec<Task> = Vec::new();
        let mut col: usize = 0;
        while col < COLUMN_COUNT
            invariant
                col <= COLUMN_COUNT,
                columns@.len() == COLUMN_COUNT,
                columns@.map_values(|c: Vec<Task>| c@) == board,
                saved@ == settled_cards(board, col as int),
            decreases COLUMN_COUNT - col,
        {
            assert(columns@[col as int]@ == board[col as int]);
            settle_column(col, &columns[col], &mut saved);
            col = col + 1;
        }
        *tasks = None;
        saved
    }
}

/// A settled card sits in the column it was settled by.
pub proof fn lemma_settle_column(col: int, t: Task)
    requires
        0 <= col < COLUMN_COUNT,
    ensures
        spec_column_of(settle(col, t).priority, settle(col, t).status) == col,
        settle(col, t).id == t.id,
        settle(col, t).project == t.project,
        settle(col, t).title == t.title,
        settle(col, t).detail == t.detail,
{
}

proof fn lemma_share_of_settled_column(col: int, c: int, cards: Seq<Task>)
    requires
        0 <= col < COLUMN_COUNT,
    ensures
        column_share(settled_column(col, cards), c) == if c == col {
            settled_column(col, cards)
        } else {
            Seq::<Task>::empty()
        },
    decreases cards.len(),
{
    let pred = |t: Task| spec_column_of(t.priority, t.status) == c;
    if cards.len() > 0 {
        let rest = cards.drop_last();
        lemma_share_of_settled_column(col, c, rest);
        assert(settled_column(col, cards) =~= settled_column(col, rest).push(
            settle(col, cards.last()),
        ));
        settled_column(col, rest).lemma_filter_push(settle(col, cards.last()), pred);
        lemma_settle_column(col, cards.last());
    } else {
        reveal(Seq::filter);
        assert(settled_column(col, cards) =~= Seq::<Task>::empty());
    }
}

proof fn lemma_share_of_settled_cards(board: Seq<Seq<Task>>, n: int, c: int)
    requires
        0 <= n <= COLUMN_COUNT,
        board.len() == COLUMN_COUNT,
    ensures
        column_share(settled_cards(board, n), c) == if 0 <= c < n {
            settled_column(c, board[c])
        } else {
            Seq::<Task>::empty()
        },
    decreases n,
{
    let pred = |t: Task| spec_column_of(t.priority, t.status) == c;
    if n > 0 {
        lemma_share_of_settled_cards(board, n - 1, c);
        Seq::filter_distributes_over_add(
            settled_cards(board, n - 1),
            settled_column(n - 1, board[n - 1]),
            pred,
        );
        lemma_share_of_settled_column(n - 1, c, board[n - 1]);
        if c == n - 1 {
            assert(Seq::<Task>::empty() + settled_column(c, board[c]) =~= settled_column(
                c,
                board[c],
            ));
        } else if 0 <= c < n - 1 {
            assert(settled_column(c, board[c]) + Seq::<Task>::empty() =~= settled_column(
                c,
                board[c],
            ));
        } else {
            assert(Seq::<Task>::empty() + Seq::<Task>::empty() =~= Seq::<Task>::empty());
        }
    } else {
        reveal(Seq::filter);
    }
}

/// Saving the board when the kanban screen is left loses nothing of it: the
/// saved tasks, sorted onto an empty board by priority and status, fill
/// every column with exactly the cards it held, in the same order (with the
/// priority and status of that column).
pub proof fn lemma_saved_cards_sort_back(board: Seq<Seq<Task>>)
    requires
        board.len() == COLUMN_COUNT,
    ensures
        sorted_onto(empty_board(), settled_cards(board, COLUMN_COUNT as int)) == Seq::new(
            COLUMN_COUNT as nat,
            |c: int| settled_column(c, board[c]),
        ),
{
    assert forall|c: int| 0 <= c < COLUMN_COUNT implies empty_board()[c] + column_share(
        settled_cards(board, COLUMN_COUNT as int),
        c,
    ) == settled_column(c, board[c]) by {
        lemma_share_of_settled_cards(board, COLUMN_COUNT as int, c);
        assert(Seq::<Task>::empty() + settled_column(c, board[c]) =~= settled_column(c, board[c]));
    }
    assert(sorted_onto(empty_board(), settled_cards(board, COLUMN_COUNT as int)) =~= Seq::new(
        COLUMN_COUNT as nat,
        |c: int| settled_column(c, board[c]),
    ));
}

/// A task settled into the column it already belongs to is unchanged.
proof fn lemma_settle_own_column(t: Task)
    ensures
        settle(spec_column_of(t.priority, t.status), t) == t,
{
}

/// The tasks of `tasks` whose column comes before column `n`.
pub open spec fn before_column(tasks: Seq<Task>, n: int) -> Seq<Task> {
    tasks.filter(|t: Task| spec_column_of(t.priority, t.status) < n)
}

proof fn lemma_before_next_column(tasks: Seq<Task>, n: int)
    ensures
        before_column(tasks, n + 1).to_multiset() == before_column(tasks, n).to_multiset().add(
            column_share(tasks, n).to_multiset(),
        ),
    decreases tasks.len(),
{
    broadcast use vstd::multiset::group_multiset_axioms;
    broadcast use vstd::seq_lib::to_multiset_build;

    let below_next = |t: Task| spec_column_of(t.priority, t.status) < n + 1;
    let below = |t: Task| spec_column_of(t.priority, t.status) < n;
    let here = |t: Task| spec_column_of(t.priority, t.status) == n;
    if tasks.len() == 0 {
        reveal(Seq::filter);
        assert(before_column(tasks, n + 1) =~= Seq::<Task>::empty());
        assert(before_column(tasks, n) =~= Seq::<Task>::empty());
        assert(column_share(tasks, n) =~= Seq::<Task>::empty());
        Seq::<Task>::empty().to_multiset_ensures();
        assert(Seq::<Task>::empty().to_multiset() =~= Multiset::empty());
        assert(Multiset::<Task>::empty().add(Multiset::empty()) =~= Multiset::empty());
    } else {
        let rest = tasks.drop_last();
        let x = tasks.last();
        assert(tasks =~= rest.push(x));
        lemma_before_next_column(rest, n);
        rest.lemma_filter_push(x, below_next);
        rest.lemma_filter_push(x, below);
        rest.lemma_filter_push(x, here);
        let a = before_column(rest, n + 1).to_multiset();
        let b = before_column(rest, n).to_multiset();
        let c = column_share(rest, n).to_multiset();
        if spec_column_of(x.priority, x.status) < n {
            assert(before_column(tasks, n + 1).to_multiset() == a.insert(x));
            assert(before_column(tasks, n).to_multiset() == b.insert(x));
            assert(column_share(tasks, n) == column_share(rest, n));
            assert(a.insert(x) =~= b.insert(x).add(c));
        } else if spec_column_of(x.priority, x.status) == n {
            assert(before_column(tasks, n + 1).to_multiset() == a.insert(x));
            assert(before_column(tasks, n) == before_column(rest, n));
            assert(column_share(tasks, n).to_multiset() == c.insert(x));
            assert(a.insert(x) =~= b.add(c.insert(x)));
        } else {
            assert(before_column(tasks, n + 1) == before_column(rest, n + 1));
            assert(before_column(tasks, n) == before_column(rest, n));
            assert(column_share(tasks, n) == column_share(rest, n));
        }
    }
}

proof fn lemma_all_before_last_column(tasks: Seq<Task>)
    ensures
        before_column(tasks, COLUMN_COUNT as int) == tasks,
    decreases tasks.len(),
{
    if tasks.len() == 0 {
        reveal(Seq::filter);
        assert(before_column(tasks, COLUMN_COUNT as int) =~= tasks);
    } else {
        let rest = tasks.drop_last();
        let x = tasks.last();
        assert(tasks =~= rest.push(x));
        lemma_all_before_last_column(rest);
        rest.lemma_filter_push(x, |t: Task| spec_column_of(t.priority, t.status) < COLUMN_COUNT as int);
    }
}

proof fn lemma_settled_share(tasks: Seq<Task>, c: int)
    requires
        0 <= c < COLUMN_COUNT,
    ensures
        settled_column(c, sorted_onto(empty_board(), tasks)[c]) == column_share(tasks, c),
{
    let share = column_share(tasks, c);
    let pred = |t: Task| spec_column_of(t.priority, t.status) == c;
    assert(sorted_onto(empty_board(), tasks)[c] =~= share);
    assert forall|i: int| 0 <= i < share.len() implies settle(c, share[i]) == share[i] by {
        tasks.lemma_filter_pred(pred, i);
        lemma_settle_own_column(share[i]);
    }
    assert(settled_column(c, share) =~= share);
}

proof fn lemma_settled_upto(tasks: Seq<Task>, n: int)
    requires
        0 <= n <= COLUMN_COUNT,
    ensures
        settled_cards(sorted_onto(empty_board(), tasks), n).to_multiset() == before_column(
            tasks,
            n,
        ).to_multiset(),
    decreases n,
{
    broadcast use vstd::multiset::group_multiset_axioms;
    broadcast use vstd::seq_lib::lemma_multiset_commutative;

    let board = sorted_onto(empty_board(), tasks);
    if n == 0 {
        if before_column(tasks, 0).len() > 0 {
            tasks.lemma_filter_pred(|t: Task| spec_column_of(t.priority, t.status) < 0, 0);
        }
        assert(before_column(tasks, 0) =~= Seq::<Task>::empty());
        Seq::<Task>::empty().to_multiset_ensures();
    } else {
        lemma_settled_upto(tasks, n - 1);
        lemma_settled_share(tasks, n - 1);
        lemma_before_next_column(tasks, n - 1);
        assert(settled_cards(board, n) == settled_cards(board, n - 1) + column_share(tasks, n - 1));
    }
}

/// Putting tasks on an empty board and saving them back, with no card
/// dragged, alters nothing: the saved tasks are exactly the tasks put on the
/// board, each with its own priority and status, as many times each.
pub proof fn lemma_unmoved_board_saves_same_tasks(tasks: Seq<Task>)
    ensures
        settled_cards(sorted_onto(empty_board(), tasks), COLUMN_COUNT as int).to_multiset()
            == tasks.to_multiset(),
{
    lemma_settled_upto(tasks, COLUMN_COUNT as int);
    lemma_all_before_last_column(tasks);
}

/// The board and its loaded mark after one drawing of the screen with
/// `tasks` fetched: when no request runs and the board is not loaded yet,
/// the fetched tasks are sorted onto it, once.
pub open spec fn spec_load(
    board: Seq<Seq<Task>>,
    ready: bool,
    requests_idle: bool,
    tasks: Option<Seq<Task>>,
) -> (Seq<Seq<Task>>, bool) {
    match tasks {
        Some(ts) => if requests_idle && !ready {
            (sorted_onto(board, ts), true)
        } else {
            (board, ready)
        },
        None => (board, ready),
    }
}

/// The board and its loaded mark after the screen is drawn once per entry
/// of `idles` (whether no request ran at that frame), with `tasks` fetched.
pub open spec fn after_frames(
    board: Seq<Seq<Task>>,
    ready: bool,
    idles: Seq<bool>,
    tasks: Option<Seq<Task>>,
) -> (Seq<Seq<Task>>, bool)
    decreases idles.len(),
{
    if idles.len() == 0 {
        (board, ready)
    } else {
        let (b, r) = after_frames(board, ready, idles.drop_last(), tasks);
        spec_load(b, r, idles.last(), tasks)
    }
}

/// After the kanban screen is entered (empty board, not loaded) and drawn
/// any number of times with the task list `tasks` fetched, the board is
/// untouched while requests run, is filled at the first frame with none,
/// and is never filled again: it then holds each task exactly once.
pub proof fn lemma_board_filled_once(tasks: Seq<Task>, idles: Seq<bool>)
    ensures
        after_frames(empty_board(), false, idles, Some(tasks)) == if idles.contains(true) {
            (sorted_onto(empty_board(), tasks), true)
        } else {
            (empty_board(), false)
        },
        idles.contains(true) ==> cards(after_frames(empty_board(), false, idles, Some(tasks)).0)
            == tasks.to_multiset(),
    decreases idles.len(),
{
    broadcast use vstd::multiset::group_multiset_axioms;
    if idles.len() > 0 {
        let rest = idles.drop_last();
        lemma_board_filled_once(tasks, rest);
        if rest.contains(true) {
            let k = choose|k: int| 0 <= k < rest.len() && rest[k] == true;
            assert(idles[k] == true);
        } else if idles.last() {
            assert(idles[idles.len() - 1] == true);
        } else {
            assert forall|k: int| 0 <= k < idles.len() implies idles[k] != true by {
                if k < rest.len() {
                    assert(rest[k] == idles[k]);
                }
            }
        }
    }
    if idles.contains(true) {
        lemma_empty_board_has_no_cards();
        lemma_sort_keeps_tasks(empty_board(), tasks);
        assert(Multiset::<Task>::empty().add(tasks.to_multiset()) =~= tasks.to_multiset());
    }
}

/// Settling a card into a column when the board is saved gives it the
/// column's status. A pending or in-progress column also gives it the
/// column's priority; the Complete and Canceled columns keep the card's own
/// priority, whatever column it came from. The card's id and texts never
/// change.
pub proof fn lemma_settle_sets_status_keeps_rest(col: int, t: Task)
    requires
        0 <= col < COLUMN_COUNT,
    ensures
        settle(col, t).id == t.id,
        settle(col, t).project == t.project,
        settle(col, t).title == t.title,
        settle(col, t).detail == t.detail,
        col == COL_COMPLETE ==> settle(col, t).priority == t.priority && settle(col, t).status
            == TaskStatus::Complete,
        col == COL_CANCELED ==> settle(col, t).priority == t.priority && settle(col, t).status
            == TaskStatus::Canceled,
        col < COL_COMPLETE ==> spec_column_of(settle(col, t).priority, settle(col, t).status) == col,
{
}

} // verus!

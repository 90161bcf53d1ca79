//! What the screens share between frames: the lists fetched from the task
//! store, and which background requests are still polled.

use vstd::prelude::*;
use crate::app::{check_rx, Received};
use crate::task::{DailyTask, MonthlyTask, Task, WeeklyTask};

verus! {

/// The kinds of background request the application sends.
#[derive(Clone, Copy, Debug, PartialEq, Eq, Structural)]
pub enum OutputKind {
    FetchAllTask,
    SearchTask,
    FetchAllDailyTask,
    FetchAllWeeklyTask,
    FetchAllMonthlyTask,
    PlotData,
    InsertTask,
    UpsertTask,
    FetchOneTask,
    UpdateTask,
    MailDaily,
    SyncAllDailyTask,
    SyncAllWeeklyTask,
    SyncAllMonthlyTask,
    /// Any other request: nothing waits for its answer.
    Other,
}

/// Whether the frame loop waits for the answer to a request of this kind;
/// the others are dropped (with a warning) the first time they are polled.
pub fn is_polled(kind: OutputKind) -> (polled: bool)
    ensures
        polled == (kind != OutputKind::Other),
{
    match kind {
        OutputKind::Other => false,
        _ => true,
    }
}

/// The result a finished request delivers.
pub enum Delivery {
    /// The task list (a fetch or a search).
    Tasks(Vec<Task>),
    DailyTasks(Vec<DailyTask>),
    WeeklyTasks(Vec<WeeklyTask>),
    MonthlyTasks(Vec<MonthlyTask>),
    /// The graph's numbers, one entry per day.
    PlotData(Vec<(i32, i32, i32, i32)>),
    /// A request with no result to keep.
    Done,
}

/// The lists fetched so far; `None` means "not fetched yet", and makes the
/// screen that shows the list ask for it.
pub struct Cache {
    pub tasks: Option<Vec<Task>>,
    pub daily_tasks: Option<Vec<DailyTask>>,
    pub weekly_tasks: Option<Vec<WeeklyTask>>,
    pub monthly_tasks: Option<Vec<MonthlyTask>>,
    pub plot_data: Option<Vec<(i32, i32, i32, i32)>>,
}

impl Cache {
    /// Nothing fetched yet.
    pub fn new() -> (cache: Self)
        ensures
            cache.tasks is None,
            cache.daily_tasks is None,
            cache.weekly_tasks is None,
            cache.monthly_tasks is None,
            cache.plot_data is None,
    {
        Cache { tasks: None, daily_tasks: None, weekly_tasks: None, monthly_tasks: None, plot_data: None }
    }

    /// Stores what a finished request delivered in its place; the other
    /// lists stay as they were.
    pub fn deliver(&mut self, delivery: Delivery)
        ensures
            *final(self) == spec_deliver(*old(self), delivery),
    {
        match delivery {
            Delivery::Tasks(v) => self.tasks = Some(v),
            Delivery::DailyTasks(v) => self.daily_tasks = Some(v),
            Delivery::WeeklyTasks(v) => self.weekly_tasks = Some(v),
            Delivery::MonthlyTasks(v) => self.monthly_tasks = Some(v),
            Delivery::PlotData(v) => self.plot_data = Some(v),
            Delivery::Done => {},
        }
    }
}

/// Whether a request of this kind keeps what it delivered: a fetch or a
/// search of tasks keeps a task list, a fetch of recurring tasks keeps their
/// list, the graph request keeps its numbers; the other requests keep
/// nothing (the single task fetched by id included).
pub open spec fn spec_keeps(kind: OutputKind, delivery: Delivery) -> bool {
    match kind {
        OutputKind::FetchAllTask | OutputKind::SearchTask => delivery is Tasks,
        OutputKind::FetchAllDailyTask => delivery is DailyTasks,
        OutputKind::FetchAllWeeklyTask => delivery is WeeklyTasks,
        OutputKind::FetchAllMonthlyTask => delivery is MonthlyTasks,
        OutputKind::PlotData => delivery is PlotData,
        _ => false,
    }
}

/// Whether a request of kind `kind` keeps `delivery` in the cache.
pub fn keeps(kind: OutputKind, delivery: &Delivery) -> (kept: bool)
    ensures
        kept == spec_keeps(kind, *delivery),
{
    match (kind, delivery) {
        (OutputKind::FetchAllTask, Delivery::Tasks(_)) => true,
        (OutputKind::SearchTask, Delivery::Tasks(_)) => true,
        (OutputKind::FetchAllDailyTask, Delivery::DailyTasks(_)) => true,
        (OutputKind::FetchAllWeeklyTask, Delivery::WeeklyTasks(_)) => true,
        (OutputKind::FetchAllMonthlyTask, Delivery::MonthlyTasks(_)) => true,
        (OutputKind::PlotData, Delivery::PlotData(_)) => true,
        _ => false,
    }
}

/// The lists after `delivery` is stored in its place.
pub open spec fn spec_deliver(cache: Cache, delivery: Delivery) -> Cache {
    match delivery {
        Delivery::Tasks(v) => Cache { tasks: Some(v), ..cache },
        Delivery::DailyTasks(v) => Cache { daily_tasks: Some(v), ..cache },
        Delivery::WeeklyTasks(v) => Cache { weekly_tasks: Some(v), ..cache },
        Delivery::MonthlyTasks(v) => Cache { monthly_tasks: Some(v), ..cache },
        Delivery::PlotData(v) => Cache { plot_data: Some(v), ..cache },
        Delivery::Done => cache,
    }
}

/// The lists after the requests of kinds `kinds` were polled, in order, and
/// gave `received`: each finished request stores what it delivered in the
/// place its kind fills, a later one over an earlier one.
pub open spec fn spec_polls(
    cache: Cache,
    kinds: Seq<OutputKind>,
    received: Seq<Received<Delivery>>,
) -> Cache
    decreases kinds.len(),
{
    if kinds.len() == 0 || received.len() == 0 {
        cache
    } else {
        let before = spec_polls(cache, kinds.drop_last(), received.drop_last());
        match received.last() {
            Received::Ready(delivery) => if spec_keeps(kinds.last(), delivery) {
                spec_deliver(before, delivery)
            } else {
                before
            },
            _ => before,
        }
    }
}

/// One poll of every request sent: `received[i]` is what polling the
/// request of kind `kinds[i]` gave. The result says which requests to keep
/// for the next frame: those of a polled kind still running. Finished
/// requests store what they delivered where their kind puts it, in order;
/// failed, closed and unpolled ones are dropped.
pub fn settle_polls(kinds: &Vec<OutputKind>, received: Vec<Received<Delivery>>, cache: &mut Cache) -> (keep: Vec<bool>)
    requires
        kinds@.len() == received@.len(),
    ensures
        keep@.len() == kinds@.len(),
        forall|i: int|
            0 <= i < keep@.len() ==> keep@[i] == (kinds@[i] != OutputKind::Other && received@[i] is Empty),
        *final(cache) == spec_polls(*old(cache), kinds@, received@),
{
    let ghost start = *cache;
    let ghost all = received@;
    let mut rest = received;
    let mut keep: Vec<bool> = Vec::new();
    let mut i: usize = 0;
    while i < kinds.len()
        invariant
            i <= kinds@.len(),
            kinds@.len() == all.len(),
            rest@ == all.skip(i as int),
            keep@.len() == i,
            forall|j: int|
                0 <= j < i ==> keep@[j] == (kinds@[j] != OutputKind::Other && all[j] is Empty),
            *cache == spec_polls(start, kinds@.take(i as int), all.take(i as int)),
        decreases kinds@.len() - i,
    {
        let ghost before = *cache;
        let r = rest.remove(0);
        assert(r == all[i as int]);
        assert(kinds@.take(i + 1).drop_last() =~= kinds@.take(i as int));
        assert(all.take(i + 1).drop_last() =~= all.take(i as int));
        assert(rest@ =~= all.skip(i + 1));
        if is_polled(kinds[i]) {
            let (still_running, delivery) = check_rx(r);
            match delivery {
                Some(d) => if keeps(kinds[i], &d) {
                    cache.deliver(d);
                },
                None => {},
            }
            keep.push(still_running);
        } else {
            keep.push(false);
        }
        i = i + 1;
    }
    assert(kinds@.take(kinds@.len() as int) =~= kinds@);
    assert(all.take(all.len() as int) =~= all);
    keep
}

proof fn lemma_one_poll(cache: Cache, kind: OutputKind, answer: Received<Delivery>)
    ensures
        spec_polls(cache, seq![kind], seq![answer]) == match answer {
            Received::Ready(delivery) => if spec_keeps(kind, delivery) {
                spec_deliver(cache, delivery)
            } else {
                cache
            },
            _ => cache,
        },
{
    let kinds = seq![kind];
    let answers = seq![answer];
    assert(kinds.drop_last() =~= Seq::<OutputKind>::empty());
    assert(answers.drop_last() =~= Seq::<Received<Delivery>>::empty());
    assert(kinds.last() == kind);
    assert(answers.last() == answer);
    assert(spec_polls(cache, kinds.drop_last(), answers.drop_last()) == cache);
}

/// A finished request stores what it fetched in its own place, the other
/// lists staying as they were: the task list of a fetch of all tasks or of
/// a search, the list of each kind of recurring task, and the graph's
/// numbers.
pub proof fn lemma_fetched_lists_are_stored(
    cache: Cache,
    tasks: Vec<Task>,
    daily: Vec<DailyTask>,
    weekly: Vec<WeeklyTask>,
    monthly: Vec<MonthlyTask>,
    plot: Vec<(i32, i32, i32, i32)>,
)
    ensures
        spec_polls(cache, seq![OutputKind::FetchAllTask], seq![Received::Ready(Delivery::Tasks(tasks))])
            == (Cache { tasks: Some(tasks), ..cache }),
        spec_polls(cache, seq![OutputKind::SearchTask], seq![Received::Ready(Delivery::Tasks(tasks))])
            == (Cache { tasks: Some(tasks), ..cache }),
        spec_polls(
            cache,
            seq![OutputKind::FetchAllDailyTask],
            seq![Received::Ready(Delivery::DailyTasks(daily))],
        ) == (Cache { daily_tasks: Some(daily), ..cache }),
        spec_polls(
            cache,
            seq![OutputKind::FetchAllWeeklyTask],
            seq![Received::Ready(Delivery::WeeklyTasks(weekly))],
        ) == (Cache { weekly_tasks: Some(weekly), ..cache }),
        spec_polls(
            cache,
            seq![OutputKind::FetchAllMonthlyTask],
            seq![Received::Ready(Delivery::MonthlyTasks(monthly))],
        ) == (Cache { monthly_tasks: Some(monthly), ..cache }),
        spec_polls(cache, seq![OutputKind::PlotData], seq![Received::Ready(Delivery::PlotData(plot))])
            == (Cache { plot_data: Some(plot), ..cache }),
{
    lemma_one_poll(cache, OutputKind::FetchAllTask, Received::Ready(Delivery::Tasks(tasks)));
    lemma_one_poll(cache, OutputKind::SearchTask, Received::Ready(Delivery::Tasks(tasks)));
    lemma_one_poll(cache, OutputKind::FetchAllDailyTask, Received::Ready(Delivery::DailyTasks(daily)));
    lemma_one_poll(cache, OutputKind::FetchAllWeeklyTask, Received::Ready(Delivery::WeeklyTasks(weekly)));
    lemma_one_poll(cache, OutputKind::FetchAllMonthlyTask, Received::Ready(Delivery::MonthlyTasks(monthly)));
    lemma_one_poll(cache, OutputKind::PlotData, Received::Ready(Delivery::PlotData(plot)));
}

/// A request that fetches nothing to keep (a write, a fetch of one task, a
/// mail, a synchronization, or any other) leaves the cache as it was,
/// whatever it answered.
pub proof fn lemma_other_requests_store_nothing(cache: Cache, kind: OutputKind, answer: Received<Delivery>)
    requires
        !(kind is FetchAllTask || kind is SearchTask || kind is FetchAllDailyTask
            || kind is FetchAllWeeklyTask || kind is FetchAllMonthlyTask || kind is PlotData),
    ensures
        spec_polls(cache, seq![kind], seq![answer]) == cache,
{
    lemma_one_poll(cache, kind, answer);
}

} // verus!

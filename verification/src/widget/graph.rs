//! The numbers behind the task graph: one stacked bar per day, with the
//! number of pending, in-progress, complete and canceled tasks.

use vstd::prelude::*;

verus! {

/// The number of tasks in a day's bar.
pub open spec fn row_total(d: (i32, i32, i32, i32)) -> int {
    d.0 + d.1 + d.2 + d.3
}

/// A day's counts can be added up in an `i32`, left to right.
pub open spec fn total_fits(d: (i32, i32, i32, i32)) -> bool {
    &&& i32::MIN <= d.0 + d.1 <= i32::MAX
    &&& i32::MIN <= d.0 + d.1 + d.2 <= i32::MAX
    &&& i32::MIN <= d.0 + d.1 + d.2 + d.3 <= i32::MAX
}

/// The height the y axis must reach: the tallest bar, or 10 with no bar.
pub fn calculate_max_y(data: &[(i32, i32, i32, i32)]) -> (max_y: i32)
    requires
        forall|i: int| 0 <= i < data@.len() ==> total_fits(#[trigger] data@[i]),
    ensures
        data@.len() == 0 ==> max_y == 10,
        data@.len() > 0 ==> exists|i: int| 0 <= i < data@.len() && max_y == row_total(#[trigger] data@[i]),
        forall|i: int| 0 <= i < data@.len() ==> row_total(#[trigger] data@[i]) <= max_y,
{
    if data.len() == 0 {
        return 10;
    }
    let d0 = data[0];
    assert(total_fits(data@[0]));
    let mut best: i32 = d0.0 + d0.1 + d0.2 + d0.3;
    let mut i: usize = 1;
    while i < data.len()
        invariant
            1 <= i <= data@.len(),
            forall|j: int| 0 <= j < data@.len() ==> total_fits(#[trigger] data@[j]),
            exists|j: int| 0 <= j < i && best == row_total(#[trigger] data@[j]),
            forall|j: int| 0 <= j < i ==> row_total(#[trigger] data@[j]) <= best,
        decreases data@.len() - i,
    {
        let d = data[i];
        assert(total_fits(data@[i as int]));
        let total = d.0 + d.1 + d.2 + d.3;
        if total > best {
            best = total;
        }
        i = i + 1;
    }
    best
}

/// How many days before today the bar at `index` stands, when there are
/// `data_len` bars and the last one is today; nothing for an index off the
/// graph.
pub fn days_before_today(data_len: usize, index: i64) -> (days: Option<i64>)
    requires
        data_len <= i64::MAX,
    ensures
        days == if 0 <= index < data_len {
            Some((data_len - 1 - index) as i64)
        } else {
            None
        },
{
    let len = data_len as i64;
    if index >= 0 && index < len {
        Some((len - 1) - index)
    } else {
        None
    }
}

proof fn lemma_divisible_negated(i: int, step: int)
    requires
        step > 0,
    ensures
        ((-i) % step == 0) == (i % step == 0),
{
    vstd::arithmetic::div_mod::lemma_fundamental_div_mod(i, step);
    vstd::arithmetic::div_mod::lemma_fundamental_div_mod(-i, step);
    if i % step == 0 {
        assert(-i == (-(i / step)) * step) by (nonlinear_arith)
            requires
                i == step * (i / step),
        ;
        vstd::arithmetic::div_mod::lemma_mod_multiples_basic(-(i / step), step);
    }
    if (-i) % step == 0 {
        assert(i == (-((-i) / step)) * step) by (nonlinear_arith)
            requires
                -i == step * ((-i) / step),
        ;
        vstd::arithmetic::div_mod::lemma_mod_multiples_basic(-((-i) / step), step);
    }
}

/// Whether `i` is a multiple of `step`.
fn is_multiple(i: i64, step: i64) -> (r: bool)
    requires
        step > 0,
    ensures
        r == (i % step == 0),
{
    let rem = i % step;
    proof {
        if i < 0 {
            assert(rem == -((-(i as int)) % (step as int)));
            lemma_divisible_negated(i as int, step as int);
        }
    }
    rem == 0
}

/// The values between `start` and `end` (both included) at which the x axis
/// gets a grid line: the multiples of `step`, in increasing order.
pub fn grid_marks(start: i64, end: i64, step: i64) -> (marks: Vec<i64>)
    requires
        step > 0,
    ensures
        forall|k: int|
            0 <= k < marks@.len() ==> start <= #[trigger] marks@[k] <= end && marks@[k] % step
                == 0,
        forall|k: int, l: int| 0 <= k < l < marks@.len() ==> marks@[k] < marks@[l],
        forall|v: i64| start <= v <= end && v % step == 0 ==> marks@.contains(v),
{
    let mut marks: Vec<i64> = Vec::new();
    if start > end {
        return marks;
    }
    let mut i: i64 = start;
    loop
        invariant_except_break
            forall|k: int|
                0 <= k < marks@.len() ==> start <= #[trigger] marks@[k] < i && marks@[k] % step
                    == 0,
            forall|k: int, l: int| 0 <= k < l < marks@.len() ==> marks@[k] < marks@[l],
            forall|v: i64| start <= v < i && v % step == 0 ==> marks@.contains(v),
        invariant
            start <= i <= end,
            step > 0,
        ensures
            forall|k: int|
                0 <= k < marks@.len() ==> start <= #[trigger] marks@[k] <= end && marks@[k] % step
                    == 0,
            forall|k: int, l: int| 0 <= k < l < marks@.len() ==> marks@[k] < marks@[l],
            forall|v: i64| start <= v <= end && v % step == 0 ==> marks@.contains(v),
        decreases end - i,
    {
        let ghost before = marks@;
        if is_multiple(i, step) {
            marks.push(i);
            assert forall|v: i64| start <= v < i && v % step == 0 implies marks@.contains(v) by {
                assert(before.contains(v));
                let k = choose|k: int| 0 <= k < before.len() && before[k] == v;
                assert(marks@[k] == v);
            }
            assert(marks@[marks@.len() - 1] == i);
        }
        if i == end {
            break;
        }
        i = i + 1;
    }
    marks
}

/// The days in the order the bars are drawn: the last day of `data` first.
pub fn stacked_order(data: &[(i32, i32, i32, i32)]) -> (rows: Vec<(i32, i32, i32, i32)>)
    ensures
        rows@ == data@.reverse(),
{
    let mut rows: Vec<(i32, i32, i32, i32)> = Vec::new();
    let mut i: usize = data.len();
    while i > 0
        invariant
            i <= data@.len(),
            rows@.len() == data@.len() - i,
            forall|k: int| 0 <= k < rows@.len() ==> rows@[k] == data@[data@.len() - 1 - k],
        decreases i,
    {
        i = i - 1;
        rows.push(data[i]);
    }
    assert(rows@ =~= data@.reverse());
    rows
}

} // verus!

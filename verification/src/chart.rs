//! The numbers that the charts and the status line are drawn from. A time
//! arrives as decimal text; its number is the text's digits read as one
//! integer, the decimal point left out.

use vstd::prelude::*;
use crate::server::{RecordView, Task, TaskRespone, TaskState};
use crate::text::chars_of;

verus! {

/// `c` is a decimal digit.
pub open spec fn is_digit(c: char) -> bool {
    '0' <= c <= '9'
}

/// The number that the decimal digit `c` stands for, and nothing for any
/// other character.
pub open spec fn digit_of(c: char) -> nat {
    if is_digit(c) {
        (c as u32 - '0' as u32) as nat
    } else {
        0
    }
}

/// Every character of `s` is a decimal digit.
pub open spec fn is_digits(s: Seq<char>) -> bool {
    forall|i: int| 0 <= i < s.len() ==> is_digit(#[trigger] s[i])
}

/// The number that the decimal digits `s` stand for.
pub open spec fn digits_value(s: Seq<char>) -> nat
    decreases s.len(),
{
    if s.len() == 0 {
        0
    } else {
        digits_value(s.drop_last()) * 10 + digit_of(s.last())
    }
}

/// `s` read as an unsigned 64-bit integer: decimal digits, at least one, with
/// a plus sign before them or none, and a value that fits.
pub open spec fn parse_u64(s: Seq<char>) -> Option<u64> {
    let digits = if s.len() > 0 && s[0] == '+' {
        s.drop_first()
    } else {
        s
    };
    if digits.len() > 0 && is_digits(digits) && digits_value(digits) <= u64::MAX {
        Some(digits_value(digits) as u64)
    } else {
        None
    }
}

/// `s` without its decimal points.
pub open spec fn without_points(s: Seq<char>) -> Seq<char> {
    s.filter(|c: char| c != '.')
}

/// The number of the time `text`, if it has one.
pub open spec fn cost_of_text(text: Seq<char>) -> Option<u64> {
    parse_u64(without_points(text))
}

/// A longer run of digits stands for no smaller number.
pub proof fn lemma_digits_value_grows(s: Seq<char>, k: int)
    requires
        0 <= k <= s.len(),
    ensures
        digits_value(s.take(k)) <= digits_value(s),
    decreases s.len() - k,
{
    if k < s.len() {
        lemma_digits_value_grows(s, k + 1);
        assert(s.take(k + 1).drop_last() =~= s.take(k));
    } else {
        assert(s.take(k) =~= s);
    }
}

/// `s` read as an unsigned 64-bit integer.
pub fn parse_number(s: &[char]) -> (out: Option<u64>)
    ensures
        out == parse_u64(s@),
{
    let n: usize = s.len();
    let start: usize = if n > 0 && s[0] == '+' {
        1
    } else {
        0
    };
    let ghost digits = s@.subrange(start as int, n as int);
    proof {
        if start == 1 {
            assert(digits =~= s@.drop_first());
        } else {
            assert(digits =~= s@);
        }
    }
    if start == n {
        return None;
    }
    let mut value: u64 = 0;
    let mut k: usize = start;
    while k < n
        invariant
            start <= k <= n == s@.len(),
            start < n,
            digits == s@.subrange(start as int, n as int),
            digits == if s@.len() > 0 && s@[0] == '+' {
                s@.drop_first()
            } else {
                s@
            },
            is_digits(digits.take(k - start)),
            value == digits_value(digits.take(k - start)),
        decreases n - k,
    {
        let c: char = s[k];
        let ghost before = digits.take(k - start);
        let ghost after = digits.take(k - start + 1);
        proof {
            assert(after.drop_last() =~= before);
            assert(after.last() == c);
            lemma_digits_value_grows(digits, k - start + 1);
        }
        if !(c >= '0' && c <= '9') {
            assert(!is_digit(digits[k - start]));
            return None;
        }
        let d: u64 = (c as u32 - '0' as u32) as u64;
        let scaled: u64 = match value.checked_mul(10) {
            Some(v) => v,
            None => {
                return None;
            },
        };
        value = match scaled.checked_add(d) {
            Some(v) => v,
            None => {
                return None;
            },
        };
        k = k + 1;
    }
    proof {
        assert(digits.take(n - start) =~= digits);
    }
    Some(value)
}

/// The number of the time `text`: its digits read as one integer, the decimal
/// points left out. `None` where what is left is no unsigned 64-bit integer.
pub fn cost_value(text: &str) -> (out: Option<u64>)
    ensures
        out == cost_of_text(text@),
{
    let chars = chars_of(text);
    let n: usize = chars.len();
    let mut kept: Vec<char> = Vec::new();
    let mut k: usize = 0;
    proof {
        reveal(Seq::filter);
        assert(chars@.take(0) =~= Seq::<char>::empty());
    }
    while k < n
        invariant
            k <= n == chars@.len(),
            kept@ == without_points(chars@.take(k as int)),
        decreases n - k,
    {
        let c: char = chars[k];
        proof {
            reveal(Seq::filter);
            assert(chars@.take(k + 1).drop_last() =~= chars@.take(k as int));
        }
        if c != '.' {
            kept.push(c);
        }
        k = k + 1;
    }
    proof {
        assert(chars@.take(n as int) =~= chars@);
    }
    parse_number(kept.as_slice())
}

/// The time that a bar is drawn for: the total time, or the time of the
/// phase with the given index, where the record has one.
pub open spec fn cost_text(r: RecordView, phase: Option<usize>) -> Option<Seq<char>> {
    match phase {
        None => Some(r.total_cost),
        Some(i) => if i < r.other_cost_list.len() {
            Some(r.other_cost_list[i as int])
        } else {
            None
        },
    }
}

/// The number of the time that a bar is drawn for.
pub open spec fn cost_of(r: RecordView, phase: Option<usize>) -> Option<u64> {
    match cost_text(r, phase) {
        Some(text) => cost_of_text(text),
        None => None,
    }
}

/// The length of the bar for `r`: the number of its time where the status is
/// 200, and nothing for any other status.
pub open spec fn bar_of(r: RecordView, phase: Option<usize>) -> Option<u64> {
    match cost_of(r, phase) {
        Some(cost) => Some(if r.status == 200 { cost } else { 0 }),
        None => None,
    }
}

/// The lengths of the bars for `records`, where each has one.
pub open spec fn bars_of(records: Seq<RecordView>, phase: Option<usize>) -> Option<Seq<u64>> {
    if forall|i: int| 0 <= i < records.len() ==> (#[trigger] bar_of(records[i], phase)) is Some {
        Some(Seq::new(records.len(), |i: int| bar_of(records[i], phase)->0))
    } else {
        None
    }
}

/// The sum of the numbers of the times of `records`, where each has one.
pub open spec fn costs_sum(records: Seq<RecordView>, phase: Option<usize>) -> Option<nat>
    decreases records.len(),
{
    if records.len() == 0 {
        Some(0)
    } else {
        match (costs_sum(records.drop_last(), phase), cost_of(records.last(), phase)) {
            (Some(sum), Some(cost)) => Some(sum + cost as nat),
            _ => None,
        }
    }
}

/// The length that the chart is scaled to: the mean of the numbers, rounded
/// down. None where there is no record, a record has no number, or their sum
/// does not fit 64 bits.
pub open spec fn scale_of(records: Seq<RecordView>, phase: Option<usize>) -> Option<u64> {
    match costs_sum(records, phase) {
        Some(sum) => if records.len() > 0 && sum <= u64::MAX {
            Some((sum / records.len()) as u64)
        } else {
            None
        },
        None => None,
    }
}

/// What a bar is labelled with: the total time in seconds and the location.
pub open spec fn label_of(r: RecordView) -> Seq<char> {
    r.total_cost + "s "@ + r.loc
}

/// How many of `records` have the status 200.
pub open spec fn count_ok(records: Seq<RecordView>) -> nat {
    records.filter(|r: RecordView| r.status == 200).len()
}

/// How many of `tasks` have ended.
pub open spec fn count_ended(tasks: Seq<TaskState>) -> nat {
    tasks.filter(|t: TaskState| t.ended).len()
}

/// The sum over more records is no smaller.
pub proof fn lemma_costs_sum_grows(records: Seq<RecordView>, phase: Option<usize>, k: int)
    requires
        0 <= k <= records.len(),
        costs_sum(records, phase) is Some,
    ensures
        costs_sum(records.take(k), phase) is Some,
        costs_sum(records.take(k), phase)->0 <= costs_sum(records, phase)->0,
    decreases records.len() - k,
{
    if k < records.len() {
        lemma_costs_sum_grows(records, phase, k + 1);
        assert(records.take(k + 1).drop_last() =~= records.take(k));
    } else {
        assert(records.take(k) =~= records);
    }
}

/// The number of the time that a bar is drawn for `record`.
pub fn cost(record: &TaskRespone, phase: Option<usize>) -> (out: Option<u64>)
    ensures
        out == cost_of(record@, phase),
{
    match phase {
        None => cost_value(record.total_cost()),
        Some(i) => {
            let costs = record.other_cost_list();
            if i < costs.len() {
                cost_value(costs[i].as_str())
            } else {
                None
            }
        },
    }
}

/// The length of the bar for `record`.
pub fn bar_value(record: &TaskRespone, phase: Option<usize>) -> (out: Option<u64>)
    ensures
        out == bar_of(record@, phase),
{
    match cost(record, phase) {
        Some(value) => if record.status() == 200 {
            Some(value)
        } else {
            Some(0)
        },
        None => None,
    }
}

/// The lengths of the bars for `records` from the one at `from` on.
pub fn chart_bars(records: &[TaskRespone], from: usize, phase: Option<usize>) -> (out: Option<
    Vec<u64>,
>)
    requires
        from <= records@.len(),
    ensures
        match out {
            Some(bars) => bars_of(
                records.deep_view().subrange(from as int, records@.len() as int),
                phase,
            ) == Some(bars@),
            None => bars_of(
                records.deep_view().subrange(from as int, records@.len() as int),
                phase,
            ) is None,
        },
{
    let n: usize = records.len();
    let ghost shown = records.deep_view().subrange(from as int, n as int);
    let mut bars: Vec<u64> = Vec::new();
    let mut k: usize = from;
    while k < n
        invariant
            from <= k <= n == records@.len(),
            shown == records.deep_view().subrange(from as int, n as int),
            bars@.len() == k - from,
            forall|i: int|
                0 <= i < k - from ==> (#[trigger] bar_of(shown[i], phase)) == Some(bars@[i]),
        decreases n - k,
    {
        assert(shown[k - from] == records@[k as int]@);
        match bar_value(&records[k], phase) {
            Some(value) => {
                bars.push(value);
            },
            None => {
                return None;
            },
        }
        k = k + 1;
    }
    proof {
        assert(bars@ =~= Seq::new(shown.len(), |i: int| bar_of(shown[i], phase)->0));
    }
    Some(bars)
}

/// The length that the chart of `records` is scaled to.
pub fn chart_scale(records: &[TaskRespone], phase: Option<usize>) -> (out: Option<u64>)
    ensures
        out == scale_of(records.deep_view(), phase),
{
    let n: usize = records.len();
    let ghost all = records.deep_view();
    if n == 0 {
        return None;
    }
    let mut sum: u64 = 0;
    let mut k: usize = 0;
    proof {
        assert(all.take(0) =~= Seq::<RecordView>::empty());
    }
    while k < n
        invariant
            k <= n == records@.len(),
            0 < n,
            all == records.deep_view(),
            costs_sum(all.take(k as int), phase) == Some(sum as nat),
        decreases n - k,
    {
        proof {
            assert(all.take(k + 1).drop_last() =~= all.take(k as int));
            assert(all.take(k + 1).last() == records@[k as int]@);
            if costs_sum(all, phase) is Some {
                lemma_costs_sum_grows(all, phase, k + 1);
            }
        }
        let value: u64 = match cost(&records[k], phase) {
            Some(value) => value,
            None => {
                return None;
            },
        };
        sum = match sum.checked_add(value) {
            Some(sum) => sum,
            None => {
                return None;
            },
        };
        k = k + 1;
    }
    proof {
        assert(all.take(n as int) =~= all);
    }
    Some(sum / (n as u64))
}

/// What the bar for `record` is labelled with.
pub fn bar_label(record: &TaskRespone) -> (out: String)
    ensures
        out@ == label_of(record@),
{
    let mut out = String::new();
    out.append(record.total_cost());
    out.append("s ");
    out.append(record.loc());
    assert(out@ =~= label_of(record@));
    out
}

/// How many of `records` have the status 200.
pub fn succeeded(records: &[TaskRespone]) -> (count: usize)
    ensures
        count == count_ok(records.deep_view()),
{
    let n: usize = records.len();
    let ghost all = records.deep_view();
    let ghost ok = |r: RecordView| r.status == 200;
    let mut count: usize = 0;
    let mut k: usize = 0;
    proof {
        reveal(Seq::filter);
        assert(all.take(0) =~= Seq::<RecordView>::empty());
    }
    while k < n
        invariant
            k <= n == records@.len(),
            all == records.deep_view(),
            ok == |r: RecordView| r.status == 200,
            count == all.take(k as int).filter(ok).len(),
            count <= k,
        decreases n - k,
    {
        proof {
            reveal(Seq::filter);
            assert(all.take(k + 1).drop_last() =~= all.take(k as int));
            assert(all.take(k + 1).last() == records@[k as int]@);
        }
        if records[k].status() == 200 {
            count = count + 1;
        }
        k = k + 1;
    }
    proof {
        assert(all.take(n as int) =~= all);
    }
    count
}

/// How many of `tasks` have ended.
pub fn completed(tasks: &[Task]) -> (count: usize)
    ensures
        count == count_ended(tasks.deep_view()),
{
    let n: usize = tasks.len();
    let ghost all = tasks.deep_view();
    let ghost done = |t: TaskState| t.ended;
    let mut count: usize = 0;
    let mut k: usize = 0;
    proof {
        reveal(Seq::filter);
        assert(all.take(0) =~= Seq::<TaskState>::empty());
    }
    while k < n
        invariant
            k <= n == tasks@.len(),
            all == tasks.deep_view(),
            done == |t: TaskState| t.ended,
            count == all.take(k as int).filter(done).len(),
            count <= k,
        decreases n - k,
    {
        proof {
            reveal(Seq::filter);
            assert(all.take(k + 1).drop_last() =~= all.take(k as int));
            assert(all.take(k + 1).last() == tasks@[k as int]@);
        }
        if tasks[k].ending() {
            count = count + 1;
        }
        k = k + 1;
    }
    proof {
        assert(all.take(n as int) =~= all);
    }
    count
}

} // verus!

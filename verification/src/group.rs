//! The grouping engine.
//!
//! Consumes flattened joined records and produces the two grouped views:
//! tasks bucketed by the UTC calendar day their interval starts in, most
//! recent day first, each bucket carrying the signed sum of its whole-
//! second durations; and projects bucketed by resolved client name, a
//! sentinel bucket collecting the projects whose client reference does
//! not resolve.

use vstd::prelude::*;

use crate::join::{FlatProject, FlatTask, ProjectSummary, TaskAfterGrouped};
use crate::timefmt::{
    date_str_of, day_of_ms, day_of_timestamp, duration_secs, format_date_key, whole_secs_of,
    MAX_DUR_SECS,
};

verus! {

/// One day's bucket of the tasks-by-date view.
#[derive(Debug)]
pub struct TasksGroupedByDate {
    /// The UTC day number the bucket collects: its date, counted in days
    /// from the Unix epoch.
    pub day: i64,
    /// The same day rendered `YYYY-MM-DD`: the group key handed out.
    pub date: String,
    /// The bucket's tasks, in the order the join returned them.
    pub tasks: Vec<TaskAfterGrouped>,
    /// Signed sum of the bucket's whole-second durations.
    pub total_time: i128,
}

/// The UTC day a flattened task starts in.
pub open spec fn flat_day(t: FlatTask) -> int {
    day_of_ms(t.start_ms as int)
}

/// The signed whole-second duration of a flattened task.
pub open spec fn flat_secs(t: FlatTask) -> int {
    whole_secs_of(t.end_ms - t.start_ms)
}

/// The tasks of one day, in input order.
pub open spec fn tasks_of_day(s: Seq<FlatTask>, d: int) -> Seq<TaskAfterGrouped>
    decreases s.len(),
{
    if s.len() == 0 {
        Seq::empty()
    } else {
        let rest = tasks_of_day(s.drop_last(), d);
        if flat_day(s.last()) == d {
            rest.push(s.last().task)
        } else {
            rest
        }
    }
}

/// The summed signed duration of one day's tasks.
pub open spec fn secs_of_day(s: Seq<FlatTask>, d: int) -> int
    decreases s.len(),
{
    if s.len() == 0 {
        0
    } else {
        let rest = secs_of_day(s.drop_last(), d);
        if flat_day(s.last()) == d {
            rest + flat_secs(s.last())
        } else {
            rest
        }
    }
}

/// The summed signed duration of every task.
pub open spec fn total_secs(s: Seq<FlatTask>) -> int
    decreases s.len(),
{
    if s.len() == 0 {
        0
    } else {
        total_secs(s.drop_last()) + flat_secs(s.last())
    }
}

/// Some task starts in day `d`.
pub open spec fn has_day(s: Seq<FlatTask>, d: int) -> bool {
    exists|i: int| 0 <= i < s.len() && flat_day(#[trigger] s[i]) == d
}

/// Some group collects day `d`.
pub open spec fn has_group_day(groups: Seq<TasksGroupedByDate>, d: int) -> bool {
    exists|k: int| 0 <= k < groups.len() && (#[trigger] groups[k]).day as int == d
}

/// What the tasks-by-date view promises of its input.
///
/// Groups are in strictly descending day order; a group exists exactly
/// for the days that occur, so the grouping is exhaustive and — days
/// being distinct — disjoint; each group holds exactly its day's tasks in
/// input order, their summed signed duration, and its day rendered as the
/// date key.
pub open spec fn task_groups_ok(s: Seq<FlatTask>, groups: Seq<TasksGroupedByDate>) -> bool {
    &&& forall|k1: int, k2: int|
        0 <= k1 < k2 < groups.len() ==> (#[trigger] groups[k1]).day > (#[trigger] groups[k2]).day
    &&& forall|k: int| 0 <= k < groups.len() ==> has_day(s, (#[trigger] groups[k]).day as int)
    &&& forall|i: int| 0 <= i < s.len() ==> has_group_day(groups, flat_day(#[trigger] s[i]))
    &&& forall|k: int|
        0 <= k < groups.len() ==> (#[trigger] groups[k]).tasks@ == tasks_of_day(
            s,
            groups[k].day as int,
        )
    &&& forall|k: int|
        0 <= k < groups.len() ==> (#[trigger] groups[k]).total_time as int == secs_of_day(
            s,
            groups[k].day as int,
        )
    &&& forall|k: int|
        0 <= k < groups.len() ==> (#[trigger] groups[k]).date@ == date_str_of(
            groups[k].day as int,
        )
}

/// Day `d` appears in the worklist of (day, sample instant) pairs.
spec fn day_listed(ds: Seq<(i64, i64)>, d: int) -> bool {
    exists|k: int| 0 <= k < ds.len() && (#[trigger] ds[k]).0 as int == d
}

/// Strictly descending day order of the worklist.
spec fn days_sorted(ds: Seq<(i64, i64)>) -> bool {
    forall|k1: int, k2: int| 0 <= k1 < k2 < ds.len() ==> (#[trigger] ds[k1]).0 > (#[trigger] ds[k2]).0
}

/// File day `d` into the sorted worklist, keeping it sorted and adding
/// nothing else; a day already listed is left alone.
fn insert_day(days: &mut Vec<(i64, i64)>, d: i64, rep: i64)
    requires
        days_sorted(old(days)@),
    ensures
        days_sorted(final(days)@),
        forall|x: int| day_listed(final(days)@, x) <==> day_listed(old(days)@, x) || x == d as int,
        forall|k: int|
            0 <= k < final(days)@.len() ==> old(days)@.contains(#[trigger] final(days)@[k])
                || final(days)@[k] == (d, rep),
{
    let mut j: usize = 0;
    while j < days.len() && days[j].0 > d
        invariant
            j <= days@.len(),
            days@ == old(days)@,
            forall|k: int| 0 <= k < j ==> (#[trigger] days@[k]).0 > d,
        decreases days@.len() - j,
    {
        j = j + 1;
    }
    if j < days.len() && days[j].0 == d {
        proof {
            assert(day_listed(days@, d as int));
            assert(forall|k: int|
                0 <= k < days@.len() ==> days@.contains(#[trigger] days@[k]));
        }
        return ;
    }
    let ghost before = days@;
    days.insert(j, (d, rep));
    proof {
        before.insert_ensures(j as int, (d, rep));
        let after = days@;
        assert forall|k1: int, k2: int| 0 <= k1 < k2 < after.len() implies (#[trigger] after[k1]).0
            > (#[trigger] after[k2]).0 by {
            if k2 < j {
                assert(after[k1] == before[k1] && after[k2] == before[k2]);
            } else if k1 < j && k2 == j {
                assert(after[k1] == before[k1]);
            } else if k1 < j && k2 > j {
                assert(after[k1] == before[k1] && after[k2] == before[k2 - 1]);
                if k1 < k2 - 1 {
                } else {
                    assert(k1 == k2 - 1);
                    assert(k1 >= j);
                }
            } else if k1 == j {
                assert(after[k2] == before[k2 - 1]);
                assert(j <= k2 - 1 < before.len());
                assert(before[j as int].0 <= d || j == before.len());
                if j < k2 - 1 {
                    assert(before[j as int].0 > before[k2 - 1].0);
                }
            } else {
                assert(after[k1] == before[k1 - 1] && after[k2] == before[k2 - 1]);
            }
        }
        assert forall|x: int| day_listed(after, x) implies day_listed(before, x) || x == d as int by {
            let k = choose|k: int| 0 <= k < after.len() && (#[trigger] after[k]).0 as int == x;
            if k < j {
                assert(before[k].0 as int == x);
            } else if k > j {
                assert(before[k - 1].0 as int == x);
            }
        }
        assert forall|x: int| day_listed(before, x) implies day_listed(after, x) by {
            let k = choose|k: int| 0 <= k < before.len() && (#[trigger] before[k]).0 as int == x;
            if k < j {
                assert(after[k].0 as int == x);
            } else {
                assert(after[k + 1].0 as int == x);
            }
        }
        assert(after[j as int] == (d, rep));
        assert(day_listed(after, d as int));
        assert forall|k: int| 0 <= k < after.len() implies before.contains(#[trigger] after[k])
            || after[k] == (d, rep) by {
            if k < j {
                assert(after[k] == before[k]);
            } else if k > j {
                assert(after[k] == before[k - 1]);
            }
        }
    }
}

/// Group flattened tasks by the UTC day their interval starts in.
///
/// The buckets come most recent day first; within a bucket, tasks keep
/// the order the join returned them in.  A reversed interval contributes
/// its negative duration to its bucket's total; nothing is clamped.
pub fn group_tasks_by_date(flat: &Vec<FlatTask>) -> (groups: Vec<TasksGroupedByDate>)
    requires
        forall|i: int| 0 <= i < flat@.len() ==> crate::join::flat_task_wf(#[trigger] flat@[i]),
    ensures
        task_groups_ok(flat@, groups@),
{
    let ghost s = flat@;
    let mut days: Vec<(i64, i64)> = Vec::new();
    let mut i: usize = 0;
    while i < flat.len()
        invariant
            i <= s.len(),
            flat@ == s,
            forall|x: int| 0 <= x < s.len() ==> crate::join::flat_task_wf(#[trigger] s[x]),
            days_sorted(days@),
            forall|k: int|
                0 <= k < days@.len() ==> crate::timefmt::ts_in_range((#[trigger] days@[k]).1 as int)
                    && day_of_ms(days@[k].1 as int) == days@[k].0 as int,
            forall|k: int| 0 <= k < days@.len() ==> has_day(s, (#[trigger] days@[k]).0 as int),
            forall|j: int| 0 <= j < i ==> day_listed(days@, flat_day(#[trigger] s[j])),
        decreases s.len() - i,
    {
        let ft = &flat[i];
        let d = day_of_timestamp(ft.start_ms);
        let ghost before = days@;
        insert_day(&mut days, d, ft.start_ms);
        proof {
            assert forall|k: int| 0 <= k < days@.len() implies crate::timefmt::ts_in_range(
                (#[trigger] days@[k]).1 as int,
            ) && day_of_ms(days@[k].1 as int) == days@[k].0 as int by {
                if days@[k] == (d, ft.start_ms) {
                } else {
                    assert(before.contains(days@[k]));
                    let k0 = choose|k0: int| 0 <= k0 < before.len() && before[k0] == days@[k];
                    assert(crate::timefmt::ts_in_range(before[k0].1 as int));
                }
            }
            assert forall|k: int| 0 <= k < days@.len() implies has_day(
                s,
                (#[trigger] days@[k]).0 as int,
            ) by {
                if days@[k] == (d, ft.start_ms) {
                    assert(flat_day(s[i as int]) == d as int);
                    assert(has_day(s, d as int));
                } else {
                    assert(before.contains(days@[k]));
                    let k0 = choose|k0: int| 0 <= k0 < before.len() && before[k0] == days@[k];
                    assert(has_day(s, before[k0].0 as int));
                }
            }
            assert(day_listed(days@, flat_day(s[i as int])));
        }
        i = i + 1;
    }
    let mut groups: Vec<TasksGroupedByDate> = Vec::new();
    let mut k: usize = 0;
    while k < days.len()
        invariant
            k <= days@.len(),
            flat@ == s,
            forall|x: int| 0 <= x < s.len() ==> crate::join::flat_task_wf(#[trigger] s[x]),
            days_sorted(days@),
            forall|x: int|
                0 <= x < days@.len() ==> crate::timefmt::ts_in_range((#[trigger] days@[x]).1 as int)
                    && day_of_ms(days@[x].1 as int) == days@[x].0 as int,
            forall|x: int| 0 <= x < days@.len() ==> has_day(s, (#[trigger] days@[x]).0 as int),
            forall|j: int| 0 <= j < s.len() ==> day_listed(days@, flat_day(#[trigger] s[j])),
            groups@.len() == k,
            forall|x: int| 0 <= x < k ==> (#[trigger] groups@[x]).day == days@[x].0,
            forall|x: int|
                0 <= x < k ==> (#[trigger] groups@[x]).tasks@ == tasks_of_day(
                    s,
                    groups@[x].day as int,
                ),
            forall|x: int|
                0 <= x < k ==> (#[trigger] groups@[x]).total_time as int == secs_of_day(
                    s,
                    groups@[x].day as int,
                ),
            forall|x: int|
                0 <= x < k ==> (#[trigger] groups@[x]).date@ == date_str_of(
                    groups@[x].day as int,
                ),
        decreases days@.len() - k,
    {
        let d = days[k].0;
        let rep = days[k].1;
        let mut tasks: Vec<TaskAfterGrouped> = Vec::new();
        let mut total: i128 = 0;
        let mut j: usize = 0;
        proof {
            assert(s.take(0) =~= Seq::<FlatTask>::empty());
        }
        while j < flat.len()
            invariant
                j <= s.len(),
                flat@ == s,
                forall|x: int| 0 <= x < s.len() ==> crate::join::flat_task_wf(#[trigger] s[x]),
                tasks@ == tasks_of_day(s.take(j as int), d as int),
                total as int == secs_of_day(s.take(j as int), d as int),
                -(j as int) * (MAX_DUR_SECS as int) <= total as int <= (j as int) * (
                MAX_DUR_SECS as int),
            decreases s.len() - j,
        {
            let ft = &flat[j];
            let ghost prefix = s.take(j as int);
            let fd = day_of_timestamp(ft.start_ms);
            if fd == d {
                tasks.push(ft.task.clone());
                let secs = duration_secs(ft.start_ms, ft.end_ms);
                total = total + secs as i128;
            }
            proof {
                let next = s.take(j + 1);
                assert(next.drop_last() =~= prefix);
                assert(next.last() == s[j as int]);
            }
            j = j + 1;
        }
        proof {
            assert(s.take(s.len() as int) =~= s);
        }
        let date = format_date_key(rep);
        groups.push(TasksGroupedByDate { day: d, date, tasks, total_time: total });
        k = k + 1;
    }
    proof {
        assert forall|i2: int| 0 <= i2 < s.len() implies has_group_day(
            groups@,
            flat_day(#[trigger] s[i2]),
        ) by {
            let dd = flat_day(s[i2]);
            assert(day_listed(days@, dd));
            let kk = choose|kk: int| 0 <= kk < days@.len() && (#[trigger] days@[kk]).0 as int == dd;
            assert(groups@[kk].day as int == dd);
        }
    }
    groups
}


/// No two listed days coincide.
pub open spec fn distinct_days(days: Seq<int>) -> bool {
    forall|k1: int, k2: int| 0 <= k1 < k2 < days.len() ==> days[k1] != days[k2]
}

/// The day-by-day sum of durations, over a list of days.
pub open spec fn secs_of_days(s: Seq<FlatTask>, days: Seq<int>) -> int
    decreases days.len(),
{
    if days.len() == 0 {
        0
    } else {
        secs_of_days(s, days.drop_last()) + secs_of_day(s, days.last())
    }
}

/// The days the groups collect, in group order.
pub open spec fn group_days(groups: Seq<TasksGroupedByDate>) -> Seq<int> {
    Seq::new(groups.len(), |k: int| groups[k].day as int)
}

/// The sum of the groups' precomputed totals.
pub open spec fn sum_group_secs(groups: Seq<TasksGroupedByDate>) -> int
    decreases groups.len(),
{
    if groups.len() == 0 {
        0
    } else {
        sum_group_secs(groups.drop_last()) + groups.last().total_time as int
    }
}

proof fn lemma_secs_of_days_zero(days: Seq<int>)
    ensures
        secs_of_days(Seq::<FlatTask>::empty(), days) == 0,
    decreases days.len(),
{
    if days.len() > 0 {
        lemma_secs_of_days_zero(days.drop_last());
    }
}

proof fn lemma_secs_of_days_skip(s0: Seq<FlatTask>, x: FlatTask, days: Seq<int>)
    requires
        !days.contains(flat_day(x)),
    ensures
        secs_of_days(s0.push(x), days) == secs_of_days(s0, days),
    decreases days.len(),
{
    if days.len() > 0 {
        let rest = days.drop_last();
        assert(!rest.contains(flat_day(x))) by {
            if rest.contains(flat_day(x)) {
                let i = choose|i: int| 0 <= i < rest.len() && rest[i] == flat_day(x);
                assert(days[i] == flat_day(x));
            }
        }
        lemma_secs_of_days_skip(s0, x, rest);
        let sx = s0.push(x);
        assert(sx.drop_last() =~= s0);
        assert(sx.last() == x);
        assert(days.last() != flat_day(x)) by {
            if days.last() == flat_day(x) {
                assert(days[days.len() - 1] == flat_day(x));
            }
        }
        assert(secs_of_day(sx, days.last()) == secs_of_day(s0, days.last()));
    }
}

proof fn lemma_secs_of_days_hit(s0: Seq<FlatTask>, x: FlatTask, days: Seq<int>)
    requires
        days.contains(flat_day(x)),
        distinct_days(days),
    ensures
        secs_of_days(s0.push(x), days) == secs_of_days(s0, days) + flat_secs(x),
    decreases days.len(),
{
    let dx = flat_day(x);
    let sx = s0.push(x);
    assert(sx.drop_last() =~= s0);
    assert(sx.last() == x);
    let rest = days.drop_last();
    let dl = days.last();
    assert(distinct_days(rest)) by {
        assert forall|k1: int, k2: int| 0 <= k1 < k2 < rest.len() implies rest[k1] != rest[k2] by {
            assert(rest[k1] == days[k1] && rest[k2] == days[k2]);
        }
    }
    if dl == dx {
        assert(!rest.contains(dx)) by {
            if rest.contains(dx) {
                let i = choose|i: int| 0 <= i < rest.len() && rest[i] == dx;
                assert(days[i] == dx && days[days.len() - 1] == dx);
            }
        }
        lemma_secs_of_days_skip(s0, x, rest);
        assert(secs_of_day(sx, dl) == secs_of_day(s0, dl) + flat_secs(x));
    } else {
        assert(rest.contains(dx)) by {
            let i = choose|i: int| 0 <= i < days.len() && days[i] == dx;
            assert(i != days.len() - 1);
            assert(rest[i] == dx);
        }
        lemma_secs_of_days_hit(s0, x, rest);
        assert(secs_of_day(sx, dl) == secs_of_day(s0, dl));
    }
}

proof fn lemma_secs_partition(s: Seq<FlatTask>, days: Seq<int>)
    requires
        distinct_days(days),
        forall|i: int| 0 <= i < s.len() ==> days.contains(flat_day(#[trigger] s[i])),
    ensures
        secs_of_days(s, days) == total_secs(s),
    decreases s.len(),
{
    if s.len() == 0 {
        assert(s =~= Seq::<FlatTask>::empty());
        lemma_secs_of_days_zero(days);
    } else {
        let s0 = s.drop_last();
        let x = s.last();
        assert forall|i: int| 0 <= i < s0.len() implies days.contains(
            flat_day(#[trigger] s0[i]),
        ) by {
            assert(s0[i] == s[i]);
        }
        lemma_secs_partition(s0, days);
        assert(days.contains(flat_day(x)));
        lemma_secs_of_days_hit(s0, x, days);
        assert(s0.push(x) =~= s);
    }
}

proof fn lemma_sum_group_days(s: Seq<FlatTask>, groups: Seq<TasksGroupedByDate>)
    requires
        forall|k: int|
            0 <= k < groups.len() ==> (#[trigger] groups[k]).total_time as int == secs_of_day(
                s,
                groups[k].day as int,
            ),
    ensures
        sum_group_secs(groups) == secs_of_days(s, group_days(groups)),
    decreases groups.len(),
{
    if groups.len() > 0 {
        let g0 = groups.drop_last();
        assert forall|k: int| 0 <= k < g0.len() implies (#[trigger] g0[k]).total_time as int
            == secs_of_day(s, g0[k].day as int) by {
            assert(g0[k] == groups[k]);
        }
        lemma_sum_group_days(s, g0);
        assert(group_days(groups).drop_last() =~= group_days(g0));
        assert(group_days(groups).last() == groups.last().day as int);
        assert(groups.last().total_time as int == secs_of_day(s, groups.last().day as int)) by {
            assert(groups[groups.len() - 1].total_time as int == secs_of_day(
                s,
                groups[groups.len() - 1].day as int,
            ));
        }
    }
}

/// The tasks-by-date view is a true partition: every task's day is
/// collected by some group, no two groups collect the same day, and the
/// groups' precomputed totals add up to the sum of all the individual
/// signed durations.
pub proof fn lemma_task_grouping_partitions(s: Seq<FlatTask>, groups: Seq<TasksGroupedByDate>)
    requires
        task_groups_ok(s, groups),
    ensures
        forall|i: int| 0 <= i < s.len() ==> has_group_day(groups, flat_day(#[trigger] s[i])),
        forall|k1: int, k2: int|
            0 <= k1 < groups.len() && 0 <= k2 < groups.len() && k1 != k2 ==> (
            #[trigger] groups[k1]).day != (#[trigger] groups[k2]).day,
        sum_group_secs(groups) == total_secs(s),
{
    assert forall|k1: int, k2: int|
        0 <= k1 < groups.len() && 0 <= k2 < groups.len() && k1 != k2 implies (
    #[trigger] groups[k1]).day != (#[trigger] groups[k2]).day by {
        if k1 < k2 {
            assert(groups[k1].day > groups[k2].day);
        } else {
            assert(groups[k2].day > groups[k1].day);
        }
    }
    assert(distinct_days(group_days(groups))) by {
        assert forall|k1: int, k2: int|
            0 <= k1 < k2 < group_days(groups).len() implies group_days(groups)[k1] != group_days(
            groups,
        )[k2] by {
            assert(groups[k1].day > groups[k2].day);
        }
    }
    assert forall|i: int| 0 <= i < s.len() implies group_days(groups).contains(
        flat_day(#[trigger] s[i]),
    ) by {
        assert(has_group_day(groups, flat_day(s[i])));
        let kk = choose|k: int|
            0 <= k < groups.len() && (#[trigger] groups[k]).day as int == flat_day(s[i]);
        assert(group_days(groups)[kk] == flat_day(s[i]));
    }
    lemma_sum_group_days(s, groups);
    lemma_secs_partition(s, group_days(groups));
}


/// One client's bucket of the projects-by-client view.
///
/// The key is the resolved client *name* — a display-oriented choice, so
/// two distinct clients sharing a name merge into one bucket — and `None`
/// is the sentinel bucket for projects whose client reference does not
/// resolve; such projects are filed there rather than dropped.
#[derive(Debug)]
pub struct ClientProjectGroup {
    pub client: Option<String>,
    pub projects: Vec<ProjectSummary>,
}

/// The group key of a flattened project.
pub open spec fn key_of(p: FlatProject) -> Option<Seq<char>> {
    crate::join::opt_view(p.client)
}

/// The summaries of one key's projects, in input order.
pub open spec fn projs_of_key(s: Seq<FlatProject>, key: Option<Seq<char>>) -> Seq<ProjectSummary>
    decreases s.len(),
{
    if s.len() == 0 {
        Seq::empty()
    } else {
        let rest = projs_of_key(s.drop_last(), key);
        if key_of(s.last()) == key {
            rest.push(s.last().summary)
        } else {
            rest
        }
    }
}

/// The keys that occur, in order of first occurrence, each once.
pub open spec fn distinct_keys(s: Seq<FlatProject>) -> Seq<Option<Seq<char>>>
    decreases s.len(),
{
    if s.len() == 0 {
        Seq::empty()
    } else {
        let rest = distinct_keys(s.drop_last());
        if rest.contains(key_of(s.last())) {
            rest
        } else {
            rest.push(key_of(s.last()))
        }
    }
}

/// Most recently updated first.
pub open spec fn sorted_by_updated_desc(ps: Seq<ProjectSummary>) -> bool {
    forall|i: int, j: int|
        0 <= i < j < ps.len() ==> (#[trigger] ps[i]).updated_ms >= (#[trigger] ps[j]).updated_ms
}

/// What the projects-by-client view promises of its input.
///
/// One group per occurring key, in order of first occurrence; each group
/// holds exactly its key's project summaries, most recently updated
/// first.
pub open spec fn project_groups_ok(s: Seq<FlatProject>, groups: Seq<ClientProjectGroup>) -> bool {
    &&& groups.len() == distinct_keys(s).len()
    &&& forall|k: int|
        0 <= k < groups.len() ==> crate::join::opt_view((#[trigger] groups[k]).client)
            == distinct_keys(s)[k]
    &&& forall|k: int|
        0 <= k < groups.len() ==> (#[trigger] groups[k]).projects@.to_multiset() == projs_of_key(
            s,
            distinct_keys(s)[k],
        ).to_multiset()
    &&& forall|k: int| 0 <= k < groups.len() ==> sorted_by_updated_desc((#[trigger] groups[k]).projects@)
}

/// Every occurring key is listed once, and the listed keys all occur.
pub proof fn lemma_distinct_keys_complete(s: Seq<FlatProject>)
    ensures
        forall|i: int| 0 <= i < s.len() ==> distinct_keys(s).contains(key_of(#[trigger] s[i])),
        forall|k1: int, k2: int|
            0 <= k1 < k2 < distinct_keys(s).len() ==> distinct_keys(s)[k1] != distinct_keys(s)[k2],
    decreases s.len(),
{
    if s.len() > 0 {
        let s0 = s.drop_last();
        lemma_distinct_keys_complete(s0);
        let rest = distinct_keys(s0);
        let kl = key_of(s.last());
        assert forall|i: int| 0 <= i < s.len() implies distinct_keys(s).contains(
            key_of(#[trigger] s[i]),
        ) by {
            if i < s.len() - 1 {
                assert(s0[i] == s[i]);
                assert(rest.contains(key_of(s0[i])));
                let x = choose|x: int| 0 <= x < rest.len() && rest[x] == key_of(s0[i]);
                assert(distinct_keys(s)[x] == key_of(s[i]));
            } else {
                if rest.contains(kl) {
                    let x = choose|x: int| 0 <= x < rest.len() && rest[x] == kl;
                    assert(distinct_keys(s)[x] == kl);
                } else {
                    assert(distinct_keys(s)[rest.len() as int] == kl);
                }
            }
        }
        if !rest.contains(kl) {
            assert forall|k1: int, k2: int|
                0 <= k1 < k2 < distinct_keys(s).len() implies distinct_keys(s)[k1]
                != distinct_keys(s)[k2] by {
                if k2 < rest.len() {
                } else {
                    assert(distinct_keys(s)[k2] == kl);
                    if distinct_keys(s)[k1] == kl {
                        assert(rest[k1] == kl);
                        assert(rest.contains(kl));
                    }
                }
            }
        }
    }
}

/// Sort project summaries most recently updated first, keeping exactly
/// the same summaries.
fn sort_summaries_desc(ps: Vec<ProjectSummary>) -> (r: Vec<ProjectSummary>)
    ensures
        r@.to_multiset() == ps@.to_multiset(),
        sorted_by_updated_desc(r@),
{
    broadcast use vstd::seq_lib::group_to_multiset_ensures;
    broadcast use vstd::multiset::group_multiset_axioms;

    let mut rest = ps;
    let mut out: Vec<ProjectSummary> = Vec::new();
    proof {
        broadcast use vstd::seq_lib::group_to_multiset_ensures;
        broadcast use vstd::multiset::group_multiset_axioms;

        assert(out@.to_multiset().add(rest@.to_multiset()) =~= ps@.to_multiset());
    }
    while rest.len() > 0
        invariant
            out@.to_multiset().add(rest@.to_multiset()) == ps@.to_multiset(),
            sorted_by_updated_desc(out@),
            forall|a: int, b: int|
                0 <= a < out@.len() && 0 <= b < rest@.len() ==> (#[trigger] out@[a]).updated_ms
                    >= (#[trigger] rest@[b]).updated_ms,
        decreases rest@.len(),
    {
        let mut m: usize = 0;
        let mut x: usize = 1;
        while x < rest.len()
            invariant
                rest@.len() > 0,
                m < x,
                x <= rest@.len(),
                forall|b: int|
                    0 <= b < x ==> rest@[m as int].updated_ms >= (#[trigger] rest@[b]).updated_ms,
            decreases rest@.len() - x,
        {
            if rest[x].updated_ms > rest[m].updated_ms {
                m = x;
            }
            x = x + 1;
        }
        let ghost oldrest = rest@;
        let ghost oldout = out@;
        let v = rest.remove(m);
        out.push(v);
        proof {
            broadcast use vstd::seq_lib::group_to_multiset_ensures;
            broadcast use vstd::multiset::group_multiset_axioms;

            oldrest.remove_ensures(m as int);
            assert(oldrest.contains(v)) by {
                assert(oldrest[m as int] == v);
            }
            assert(oldrest.to_multiset().count(v) > 0);
            assert(rest@ == oldrest.remove(m as int));
            assert(oldrest.remove(m as int).to_multiset() == oldrest.to_multiset().remove(
                oldrest[m as int],
            ));
            assert(rest@.to_multiset() =~= oldrest.to_multiset().remove(v));
            assert(oldout.push(v).to_multiset() =~= oldout.to_multiset().insert(v));
            assert(out@.to_multiset() =~= oldout.to_multiset().insert(v));
            assert(out@.to_multiset().add(rest@.to_multiset()) =~= ps@.to_multiset());
            assert forall|a: int, b: int|
                0 <= a < out@.len() && 0 <= b < rest@.len() implies (#[trigger] out@[a]).updated_ms
                >= (#[trigger] rest@[b]).updated_ms by {
                let ob = if b < m { oldrest[b] } else { oldrest[b + 1] };
                assert(rest@[b] == ob);
                if a < oldout.len() {
                    assert(out@[a] == oldout[a]);
                } else {
                    assert(out@[a] == v);
                    assert(v.updated_ms >= ob.updated_ms);
                }
            }
            assert forall|i: int, j: int|
                0 <= i < j < out@.len() implies (#[trigger] out@[i]).updated_ms
                >= (#[trigger] out@[j]).updated_ms by {
                if j < oldout.len() {
                } else {
                    assert(out@[j] == v);
                    if i < oldout.len() {
                        assert(oldout[i].updated_ms >= oldrest[m as int].updated_ms);
                    }
                }
            }
        }
    }
    proof {
        broadcast use vstd::seq_lib::group_to_multiset_ensures;
        broadcast use vstd::multiset::group_multiset_axioms;

        assert(rest@.to_multiset().len() == 0);
        assert(out@.to_multiset() =~= out@.to_multiset().add(rest@.to_multiset()));
    }
    out
}

/// Is this key already listed?
fn contains_key(keys: &Vec<Option<String>>, cur: &Option<String>) -> (r: bool)
    ensures
        r == exists|k: int|
            0 <= k < keys@.len() && crate::join::opt_view(#[trigger] keys@[k])
                == crate::join::opt_view(*cur),
{
    let mut k: usize = 0;
    while k < keys.len()
        invariant
            k <= keys@.len(),
            forall|x: int|
                0 <= x < k ==> crate::join::opt_view(#[trigger] keys@[x]) != crate::join::opt_view(
                    *cur,
                ),
        decreases keys@.len() - k,
    {
        if crate::strutil::opt_str_eq(&keys[k], cur) {
            return true;
        }
        k = k + 1;
    }
    false
}

/// Group flattened projects by resolved client name.
///
/// One bucket per occurring name, in order of first appearance, plus the
/// sentinel bucket (`client == None`) for projects whose reference chain
/// is broken; within a bucket, projects come most recently updated first.
pub fn group_projects_by_client(flat: &Vec<FlatProject>) -> (groups: Vec<ClientProjectGroup>)
    ensures
        project_groups_ok(flat@, groups@),
{
    let ghost s = flat@;
    let mut keys: Vec<Option<String>> = Vec::new();
    let mut i: usize = 0;
    proof {
        assert(s.take(0) =~= Seq::<FlatProject>::empty());
    }
    while i < flat.len()
        invariant
            i <= s.len(),
            flat@ == s,
            keys@.len() == distinct_keys(s.take(i as int)).len(),
            forall|k: int|
                0 <= k < keys@.len() ==> crate::join::opt_view(#[trigger] keys@[k]) == distinct_keys(
                    s.take(i as int),
                )[k],
        decreases s.len() - i,
    {
        let ghost prefix = s.take(i as int);
        let cur = &flat[i].client;
        let listed = contains_key(&keys, cur);
        proof {
            assert(s.take(i + 1).drop_last() =~= prefix);
            assert(s.take(i + 1).last() == s[i as int]);
            if listed {
                let k = choose|k: int|
                    0 <= k < keys@.len() && crate::join::opt_view(#[trigger] keys@[k])
                        == crate::join::opt_view(*cur);
                assert(distinct_keys(prefix)[k] == key_of(s[i as int]));
                assert(distinct_keys(prefix).contains(key_of(s[i as int])));
            } else {
                if distinct_keys(prefix).contains(key_of(s[i as int])) {
                    let k = choose|k: int|
                        0 <= k < distinct_keys(prefix).len() && distinct_keys(prefix)[k] == key_of(
                            s[i as int],
                        );
                    assert(crate::join::opt_view(keys@[k]) == crate::join::opt_view(*cur));
                }
            }
        }
        if !listed {
            keys.push(flat[i].client.clone());
        }
        i = i + 1;
    }
    proof {
        assert(s.take(s.len() as int) =~= s);
    }
    let mut groups: Vec<ClientProjectGroup> = Vec::new();
    let mut k: usize = 0;
    while k < keys.len()
        invariant
            k <= keys@.len(),
            flat@ == s,
            keys@.len() == distinct_keys(s).len(),
            forall|x: int|
                0 <= x < keys@.len() ==> crate::join::opt_view(#[trigger] keys@[x]) == distinct_keys(
                    s,
                )[x],
            groups@.len() == k,
            forall|x: int|
                0 <= x < k ==> crate::join::opt_view((#[trigger] groups@[x]).client)
                    == distinct_keys(s)[x],
            forall|x: int|
                0 <= x < k ==> (#[trigger] groups@[x]).projects@.to_multiset() == projs_of_key(
                    s,
                    distinct_keys(s)[x],
                ).to_multiset(),
            forall|x: int| 0 <= x < k ==> sorted_by_updated_desc((#[trigger] groups@[x]).projects@),
        decreases keys@.len() - k,
    {
        let key = &keys[k];
        let mut ps: Vec<ProjectSummary> = Vec::new();
        let mut j: usize = 0;
        proof {
            assert(s.take(0) =~= Seq::<FlatProject>::empty());
        }
        while j < flat.len()
            invariant
                j <= s.len(),
                flat@ == s,
                k < keys@.len(),
                *key == keys@[k as int],
                ps@ == projs_of_key(s.take(j as int), crate::join::opt_view(keys@[k as int])),
            decreases s.len() - j,
        {
            let ghost prefix = s.take(j as int);
            if crate::strutil::opt_str_eq(&flat[j].client, key) {
                ps.push(flat[j].summary.clone());
            }
            proof {
                assert(s.take(j + 1).drop_last() =~= prefix);
                assert(s.take(j + 1).last() == s[j as int]);
            }
            j = j + 1;
        }
        proof {
            assert(s.take(s.len() as int) =~= s);
        }
        let sorted = sort_summaries_desc(ps);
        groups.push(ClientProjectGroup { client: key.clone(), projects: sorted });
        k = k + 1;
    }
    groups
}

} // verus!

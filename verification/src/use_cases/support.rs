//! Positional classification of the checks of one hour interval, and the
//! time per task that one interval yields.
use vstd::prelude::*;

use crate::hour_interval_state::{count_worked, spec_successful_count, spec_work_stage_closed, HourIntervalState};
use crate::ids::{HourIntervalId, TaskId, TenMinCheckId};
use crate::ordering::{stable_order, stable_order_by_key};
use crate::ten_min_check::{CheckStatus, TenMinCheck, TenMinCheckView};
use crate::time_calculations::{spec_task_time_millis, task_time};
use crate::value_objects::{Duration, UtcTimestamp};

verus! {

broadcast use vstd::seq_lib::group_seq_properties;

/// The checks of one interval, split by position: the closed work attempts
/// (statuses and checks, the rest slot excluded) and the rest check, if it
/// was created.
pub struct ClassifiedChecks {
    pub closed_work_statuses: Vec<CheckStatus>,
    pub closed_work_checks: Vec<TenMinCheck>,
    pub rest_check: Option<TenMinCheck>,
}

/// The classification, over the fields of the checks.
pub struct ClassifiedView {
    pub closed_work_statuses: Seq<CheckStatus>,
    pub closed_work_checks: Seq<TenMinCheckView>,
    pub rest_check: Option<TenMinCheckView>,
}

/// The fields of each check of a sequence.
pub open spec fn views(checks: Seq<TenMinCheck>) -> Seq<TenMinCheckView> {
    checks.map_values(|c: TenMinCheck| c@)
}

/// The fields of an optional check.
pub open spec fn opt_view(check: Option<TenMinCheck>) -> Option<TenMinCheckView> {
    match check {
        Some(c) => Some(c@),
        None => None,
    }
}

impl View for ClassifiedChecks {
    type V = ClassifiedView;

    open spec fn view(&self) -> ClassifiedView {
        ClassifiedView {
            closed_work_statuses: self.closed_work_statuses@,
            closed_work_checks: views(self.closed_work_checks@),
            rest_check: opt_view(self.rest_check),
        }
    }
}

/// Classification of checks already in start order: while fewer than five
/// worked checks are closed, each closed check is a work attempt (an open one
/// is skipped); from the fifth worked one on, a check is the rest slot (the
/// last such check counts).
pub open spec fn classify_in_order(checks: Seq<TenMinCheckView>) -> ClassifiedView
    decreases checks.len(),
{
    if checks.len() == 0 {
        ClassifiedView {
            closed_work_statuses: Seq::empty(),
            closed_work_checks: Seq::empty(),
            rest_check: None,
        }
    } else {
        let prev = classify_in_order(checks.drop_last());
        let check = checks.last();
        if spec_work_stage_closed(prev.closed_work_statuses) {
            ClassifiedView { rest_check: Some(check), ..prev }
        } else if check.ended_at is Some {
            ClassifiedView {
                closed_work_statuses: prev.closed_work_statuses.push(check.status),
                closed_work_checks: prev.closed_work_checks.push(check),
                rest_check: prev.rest_check,
            }
        } else {
            prev
        }
    }
}

/// Start instants of the checks, as sort keys.
pub open spec fn start_keys(checks: Seq<TenMinCheck>) -> Seq<i64> {
    checks.map_values(|c: TenMinCheck| c@.started_at.spec_millis() as i64)
}

/// The checks in start order, ties kept in input order (a stable sort).
pub open spec fn in_start_order(checks: Seq<TenMinCheck>) -> Seq<TenMinCheckView> {
    stable_order(start_keys(checks)).map_values(|p: usize| checks[p as int]@)
}

/// The classification of the checks of one interval, given in any order.
pub open spec fn spec_classify(checks: Seq<TenMinCheck>) -> ClassifiedView {
    classify_in_order(in_start_order(checks))
}

/// The statuses of a sequence of checks.
pub open spec fn statuses_of(checks: Seq<TenMinCheckView>) -> Seq<CheckStatus> {
    checks.map_values(|c: TenMinCheckView| c.status)
}

/// What every classification keeps: the statuses are those of the work
/// checks, every work check is closed, at most five of them were worked (the
/// rest slot takes over after the fifth), and a rest slot exists only once
/// the work stage closed.
pub proof fn lemma_classification_shape(checks: Seq<TenMinCheckView>)
    ensures
        classify_in_order(checks).closed_work_statuses == statuses_of(
            classify_in_order(checks).closed_work_checks,
        ),
        forall|i: int|
            0 <= i < classify_in_order(checks).closed_work_checks.len() ==> (
            #[trigger] classify_in_order(checks).closed_work_checks[i]).ended_at is Some,
        count_worked(classify_in_order(checks).closed_work_statuses) <= 5,
        classify_in_order(checks).rest_check is Some ==> spec_work_stage_closed(
            classify_in_order(checks).closed_work_statuses,
        ),
    decreases checks.len(),
{
    if checks.len() > 0 {
        lemma_classification_shape(checks.drop_last());
        let prev = classify_in_order(checks.drop_last());
        let check = checks.last();
        if !spec_work_stage_closed(prev.closed_work_statuses) && check.ended_at is Some {
            crate::hour_interval_state::lemma_count_worked_bounded(prev.closed_work_statuses);
            assert(prev.closed_work_statuses.push(check.status).drop_last() =~= prev.closed_work_statuses);
            assert(statuses_of(prev.closed_work_checks.push(check)) =~= statuses_of(
                prev.closed_work_checks,
            ).push(check.status));
        }
    }
}

/// An interval whose rest slot started has five successful checks: the
/// count that closing it records is five exactly.
pub proof fn lemma_rest_means_five_successful(checks: Seq<TenMinCheck>)
    ensures
        spec_classify(checks).rest_check is Some ==> spec_successful_count(
            spec_classify(checks).closed_work_statuses,
        ) == 5,
{
    lemma_classification_shape(in_start_order(checks));
}

/// Each check started no earlier than the ones before it.
pub open spec fn starts_in_order(checks: Seq<TenMinCheckView>) -> bool {
    forall|i: int, j: int|
        0 <= i < j < checks.len() ==> (#[trigger] checks[i]).started_at.spec_millis()
            <= (#[trigger] checks[j]).started_at.spec_millis()
}

/// Each check started after the ones before it.
pub open spec fn starts_strictly_in_order(checks: Seq<TenMinCheckView>) -> bool {
    forall|i: int, j: int|
        0 <= i < j < checks.len() ==> (#[trigger] checks[i]).started_at.spec_millis()
            < (#[trigger] checks[j]).started_at.spec_millis()
}

/// No two of the checks started at the same instant.
pub open spec fn distinct_starts(checks: Seq<TenMinCheck>) -> bool {
    forall|a: int, b: int|
        0 <= a < b < checks.len() ==> (#[trigger] checks[a])@.started_at.spec_millis()
            != (#[trigger] checks[b])@.started_at.spec_millis()
}

/// The checks in start order are the checks themselves, sorted by start;
/// with distinct starts, strictly.
pub proof fn lemma_in_start_order_sorted(checks: Seq<TenMinCheck>)
    requires
        checks.len() <= usize::MAX,
    ensures
        in_start_order(checks).len() == checks.len(),
        starts_in_order(in_start_order(checks)),
        distinct_starts(checks) ==> starts_strictly_in_order(in_start_order(checks)),
{
    let keys = start_keys(checks);
    crate::ordering::lemma_stable_order_exists(keys);
    let o = stable_order(keys);
    let s = in_start_order(checks);
    assert forall|i: int, j: int| 0 <= i < j < s.len() implies (#[trigger] s[i]).started_at.spec_millis()
        <= (#[trigger] s[j]).started_at.spec_millis() && (distinct_starts(checks) ==> s[i].started_at.spec_millis()
        < s[j].started_at.spec_millis()) by {
        assert(crate::ordering::precedes(keys, o[i] as int, o[j] as int));
        checks[o[i] as int]@.started_at.lemma_bounds();
        checks[o[j] as int]@.started_at.lemma_bounds();
        if distinct_starts(checks) && (o[i] as int) < (o[j] as int) {
            assert(checks[o[i] as int]@.started_at.spec_millis() != checks[o[j] as int]@.started_at.spec_millis());
        }
    }
}

/// Over checks in start order, the work checks keep that order, none starts
/// after the last check, and the rest check (when there is one) is the last
/// check and starts no earlier than any work check; later than each of them
/// where the starts strictly increase.
pub proof fn lemma_classification_keeps_start_order(checks: Seq<TenMinCheckView>)
    requires
        starts_in_order(checks),
    ensures
        starts_in_order(classify_in_order(checks).closed_work_checks),
        checks.len() == 0 ==> classify_in_order(checks).closed_work_checks.len() == 0,
        checks.len() > 0 ==> forall|k: int|
            0 <= k < classify_in_order(checks).closed_work_checks.len() ==> (#[trigger] classify_in_order(
                checks,
            ).closed_work_checks[k]).started_at.spec_millis() <= checks.last().started_at.spec_millis(),
        classify_in_order(checks).rest_check matches Some(r) ==> checks.len() > 0 && r == checks.last(),
        classify_in_order(checks).rest_check matches Some(r) ==> forall|k: int|
            0 <= k < classify_in_order(checks).closed_work_checks.len() ==> (#[trigger] classify_in_order(
                checks,
            ).closed_work_checks[k]).started_at.spec_millis() <= r.started_at.spec_millis(),
        starts_strictly_in_order(checks) ==> (classify_in_order(checks).rest_check matches Some(r) ==> forall|k: int|
            0 <= k < classify_in_order(checks).closed_work_checks.len() ==> (#[trigger] classify_in_order(
                checks,
            ).closed_work_checks[k]).started_at.spec_millis() < r.started_at.spec_millis()),
    decreases checks.len(),
{
    if checks.len() > 0 {
        let head = checks.drop_last();
        assert(starts_in_order(head));
        lemma_classification_keeps_start_order(head);
        lemma_classification_shape(head);
        let prev = classify_in_order(head);
        let check = checks.last();
        let n = checks.len() - 1;
        if head.len() > 0 {
            assert(head.last() == checks[n - 1]);
            assert(checks[n - 1].started_at.spec_millis() <= checks[n].started_at.spec_millis());
            if starts_strictly_in_order(checks) {
                assert(checks[n - 1].started_at.spec_millis() < checks[n].started_at.spec_millis());
            }
        }
        if !spec_work_stage_closed(prev.closed_work_statuses) && check.ended_at is Some {
            let closed = prev.closed_work_checks.push(check);
            assert forall|i: int, j: int| 0 <= i < j < closed.len() implies (#[trigger] closed[i]).started_at.spec_millis()
                <= (#[trigger] closed[j]).started_at.spec_millis() by {
                if j == closed.len() - 1 {
                    assert(closed[i] == prev.closed_work_checks[i]);
                } else {
                    assert(closed[i] == prev.closed_work_checks[i]);
                    assert(closed[j] == prev.closed_work_checks[j]);
                }
            }
        }
    }
}

/// What classifying the checks of one interval gives, whatever order they
/// come in: the statuses are those of the work checks, every work check is
/// closed, the work checks come in start order, at most five of them were
/// worked, and a rest check exists only when exactly five were; it then
/// started no earlier than every work check, and later than each where no
/// two checks started at the same instant.
pub proof fn lemma_classified_checks(checks: Seq<TenMinCheck>)
    requires
        checks.len() <= usize::MAX,
    ensures
        spec_classify(checks).closed_work_statuses == statuses_of(spec_classify(checks).closed_work_checks),
        forall|i: int|
            0 <= i < spec_classify(checks).closed_work_checks.len() ==> (
            #[trigger] spec_classify(checks).closed_work_checks[i]).ended_at is Some,
        starts_in_order(spec_classify(checks).closed_work_checks),
        count_worked(spec_classify(checks).closed_work_statuses) <= 5,
        spec_classify(checks).rest_check is Some ==> count_worked(spec_classify(checks).closed_work_statuses)
            == 5,
        spec_classify(checks).rest_check matches Some(r) ==> forall|k: int|
            0 <= k < spec_classify(checks).closed_work_checks.len() ==> (
            #[trigger] spec_classify(checks).closed_work_checks[k]).started_at.spec_millis()
                <= r.started_at.spec_millis(),
        distinct_starts(checks) ==> (spec_classify(checks).rest_check matches Some(r) ==> forall|k: int|
            0 <= k < spec_classify(checks).closed_work_checks.len() ==> (
            #[trigger] spec_classify(checks).closed_work_checks[k]).started_at.spec_millis()
                < r.started_at.spec_millis()),
{
    let ordered = in_start_order(checks);
    lemma_in_start_order_sorted(checks);
    lemma_classification_shape(ordered);
    lemma_classification_keeps_start_order(ordered);
    let c = classify_in_order(ordered);
    if c.rest_check is Some {
        crate::hour_interval_state::lemma_count_worked_bounded(c.closed_work_statuses);
        assert(c.closed_work_statuses.len() == c.closed_work_checks.len());
    }
}

/// Classifying the checks of one interval does not depend on the order they
/// are given in, when no two of them started at the same instant: the checks
/// put in any other order (`other[i]` is `checks[perm[i]]`, `perm` a
/// permutation) classify the same.
pub proof fn lemma_classify_ignores_input_order(
    checks: Seq<TenMinCheck>,
    other: Seq<TenMinCheck>,
    perm: Seq<int>,
)
    requires
        checks.len() <= usize::MAX,
        distinct_starts(checks),
        perm.len() == checks.len(),
        perm.no_duplicates(),
        forall|i: int| 0 <= i < perm.len() ==> 0 <= #[trigger] perm[i] < checks.len(),
        other.len() == checks.len(),
        forall|i: int| 0 <= i < other.len() ==> #[trigger] other[i] == checks[perm[i]],
    ensures
        spec_classify(other) == spec_classify(checks),
{
    let keys = start_keys(checks);
    let other_keys = start_keys(other);
    crate::ordering::lemma_stable_order_exists(other_keys);
    let o2 = stable_order(other_keys);
    let o1 = o2.map_values(|pos: usize| perm[pos as int] as usize);
    assert forall|i: int| 0 <= i < o1.len() implies (#[trigger] o1[i]) < keys.len() by {
        assert(o2[i] < other.len());
    }
    assert forall|i: int, j: int| 0 <= i < j < o1.len() implies crate::ordering::precedes(
        keys,
        #[trigger] o1[i] as int,
        #[trigger] o1[j] as int,
    ) by {
        let a = o2[i] as int;
        let b = o2[j] as int;
        assert(crate::ordering::precedes(other_keys, a, b));
        assert(other[a] == checks[perm[a]] && other[b] == checks[perm[b]]);
        assert(perm[a] != perm[b]);
        checks[perm[a]]@.started_at.lemma_bounds();
        checks[perm[b]]@.started_at.lemma_bounds();
        if perm[a] < perm[b] {
            assert(checks[perm[a]]@.started_at.spec_millis() != checks[perm[b]]@.started_at.spec_millis());
        } else {
            assert(checks[perm[b]]@.started_at.spec_millis() != checks[perm[a]]@.started_at.spec_millis());
        }
    }
    assert(crate::ordering::is_stable_order(keys, o1));
    crate::ordering::lemma_stable_order_unique(keys, o1, stable_order(keys));
    assert(in_start_order(other) =~= in_start_order(checks)) by {
        assert forall|i: int| 0 <= i < o2.len() implies in_start_order(other)[i] == in_start_order(checks)[i] by {
            assert(other[o2[i] as int] == checks[perm[o2[i] as int]]);
        }
    }
}

/// Splits the checks of one interval (in any order) by position; the order
/// is the start order, ties kept in input order.
pub fn classify_checks(checks: &Vec<TenMinCheck>) -> (c: ClassifiedChecks)
    ensures
        c@ == spec_classify(checks@),
{
    let mut keys: Vec<i64> = Vec::new();
    let mut k: usize = 0;
    while k < checks.len()
        invariant
            k <= checks@.len(),
            keys@ =~= start_keys(checks@).take(k as int),
        decreases checks@.len() - k,
    {
        keys.push(checks[k].started_at().value());
        k = k + 1;
    }
    proof {
        assert(keys@ =~= start_keys(checks@));
    }
    let order = stable_order_by_key(&keys);
    let ghost ordered = in_start_order(checks@);
    let mut closed_work_statuses: Vec<CheckStatus> = Vec::new();
    let mut closed_work_checks: Vec<TenMinCheck> = Vec::new();
    let mut rest_check: Option<TenMinCheck> = None;
    let mut i: usize = 0;
    proof {
        assert(ordered.take(0) =~= Seq::<TenMinCheckView>::empty());
        assert(views(closed_work_checks@) =~= Seq::<TenMinCheckView>::empty());
        assert(closed_work_statuses@ =~= Seq::<CheckStatus>::empty());
    }
    while i < order.len()
        invariant
            i <= order@.len(),
            order@ == stable_order(start_keys(checks@)),
            order@.len() == checks@.len(),
            forall|q: int| 0 <= q < order@.len() ==> (#[trigger] order@[q]) < checks@.len(),
            ordered == in_start_order(checks@),
            ordered.len() == order@.len(),
            (ClassifiedView {
                closed_work_statuses: closed_work_statuses@,
                closed_work_checks: views(closed_work_checks@),
                rest_check: opt_view(rest_check),
            }) == classify_in_order(ordered.take(i as int)),
        decreases order@.len() - i,
    {
        let check = checks[order[i]].clone();
        proof {
            assert(ordered[i as int] == check@);
            assert(ordered.take(i as int + 1).drop_last() =~= ordered.take(i as int));
        }
        if HourIntervalState::is_next_slot_rest(closed_work_statuses.as_slice()) {
            rest_check = Some(check);
        } else if check.ended_at().is_some() {
            closed_work_statuses.push(check.status());
            let ghost before = closed_work_checks@;
            closed_work_checks.push(check);
            proof {
                assert(views(closed_work_checks@) =~= views(before).push(closed_work_checks@.last()@));
            }
        }
        i = i + 1;
    }
    proof {
        assert(ordered.take(i as int) =~= ordered);
    }
    ClassifiedChecks { closed_work_statuses, closed_work_checks, rest_check }
}


/// Number of worked checks of task `task` in a sequence of checks.
pub open spec fn worked_of_task(checks: Seq<TenMinCheckView>, task: TaskId) -> nat
    decreases checks.len(),
{
    if checks.len() == 0 {
        0
    } else {
        worked_of_task(checks.drop_last(), task) + if checks.last().status == CheckStatus::Worked
            && checks.last().task_id == task {
            1nat
        } else {
            0nat
        }
    }
}

/// The task of the rest check, if the rest check exists.
pub open spec fn rest_task(c: ClassifiedView) -> Option<TaskId> {
    match c.rest_check {
        Some(r) => Some(r.task_id),
        None => None,
    }
}

/// Task `task` is credited with the rest slot: five worked checks closed the
/// work stage, and the rest slot is on `task`.
pub open spec fn earns_rest(c: ClassifiedView, task: TaskId) -> bool {
    spec_work_stage_closed(c.closed_work_statuses) && rest_task(c) == Some(task)
}

/// Task `task` gets time from the interval: it has worked checks there or it
/// earns the rest.
pub open spec fn has_interval_time(c: ClassifiedView, task: TaskId) -> bool {
    worked_of_task(c.closed_work_checks, task) > 0 || earns_rest(c, task)
}

/// Time (in milliseconds) that task `task` gets from the interval.
pub open spec fn interval_task_millis(c: ClassifiedView, task: TaskId) -> int {
    spec_task_time_millis(worked_of_task(c.closed_work_checks, task) as u8, earns_rest(c, task))
}

/// `totals` lists, once each and in no particular order, the tasks that get
/// time from the interval, with that time.
pub open spec fn is_interval_totals(c: ClassifiedView, totals: Seq<(TaskId, Duration)>) -> bool {
    &&& forall|i: int|
        0 <= i < totals.len() ==> has_interval_time(c, (#[trigger] totals[i]).0)
            && totals[i].1.spec_millis() == interval_task_millis(c, totals[i].0)
    &&& forall|i: int, j: int|
        0 <= i < j < totals.len() ==> (#[trigger] totals[i]).0 != (#[trigger] totals[j]).0
    &&& forall|task: TaskId|
        has_interval_time(c, task) ==> exists|i: int| 0 <= i < totals.len() && (#[trigger] totals[i]).0 == task
}

/// A task's worked checks are among all worked checks.
pub proof fn lemma_worked_of_task_bounded(checks: Seq<TenMinCheckView>, task: TaskId)
    ensures
        worked_of_task(checks, task) <= count_worked(statuses_of(checks)),
    decreases checks.len(),
{
    if checks.len() > 0 {
        lemma_worked_of_task_bounded(checks.drop_last(), task);
        assert(statuses_of(checks).drop_last() =~= statuses_of(checks.drop_last()));
    }
}

/// Counting over a prefix never exceeds counting over the whole sequence.
pub proof fn lemma_worked_of_task_prefix(checks: Seq<TenMinCheckView>, k: int, task: TaskId)
    requires
        0 <= k <= checks.len(),
    ensures
        worked_of_task(checks.take(k), task) <= worked_of_task(checks, task),
    decreases checks.len(),
{
    if k < checks.len() {
        assert(checks.drop_last().take(k) =~= checks.take(k));
        lemma_worked_of_task_prefix(checks.drop_last(), k, task);
    } else {
        assert(checks.take(k) =~= checks);
    }
}

proof fn lemma_worked_of_task_step(w: Seq<TenMinCheckView>, k: int, task: TaskId)
    requires
        0 <= k < w.len(),
    ensures
        worked_of_task(w.take(k + 1), task) == worked_of_task(w.take(k), task) + if w[k].status
            == CheckStatus::Worked && w[k].task_id == task {
            1nat
        } else {
            0nat
        },
{
    assert(w.take(k + 1).drop_last() =~= w.take(k));
}

fn position_of(counts: &Vec<(TaskId, u8)>, task: TaskId) -> (r: Option<usize>)
    ensures
        r matches Some(p) ==> p < counts@.len() && counts@[p as int].0 == task,
        r is None ==> forall|a: int| 0 <= a < counts@.len() ==> (#[trigger] counts@[a]).0 != task,
{
    let mut a: usize = 0;
    while a < counts.len()
        invariant
            a <= counts@.len(),
            forall|b: int| 0 <= b < a ==> (#[trigger] counts@[b]).0 != task,
        decreases counts@.len() - a,
    {
        if counts[a].0 == task {
            return Some(a);
        }
        a = a + 1;
    }
    None
}

/// Time per task of one interval: for each task with worked checks there,
/// ten minutes per worked check, plus the rest for the task that the rest
/// check belongs to when the work stage closed naturally.
pub fn task_time_totals_for_interval(checks: &Vec<TenMinCheck>) -> (totals: Vec<(TaskId, Duration)>)
    ensures
        is_interval_totals(spec_classify(checks@), totals@),
{
    let ghost spec_c = spec_classify(checks@);
    let classified = classify_checks(checks);
    proof {
        lemma_classification_shape(in_start_order(checks@));
    }
    let rest_earned = HourIntervalState::is_rest_owed(classified.closed_work_statuses.as_slice());
    let rest_task_id: Option<TaskId> = match &classified.rest_check {
        Some(rest) => Some(rest.task_id()),
        None => None,
    };
    let work = &classified.closed_work_checks;
    let ghost w = views(work@);
    let mut counts: Vec<(TaskId, u8)> = Vec::new();
    let mut k: usize = 0;
    while k < work.len()
        invariant
            k <= work@.len(),
            w == views(work@),
            w == spec_c.closed_work_checks,
            count_worked(statuses_of(w)) <= 5,
            forall|a: int, b: int|
                0 <= a < b < counts@.len() ==> (#[trigger] counts@[a]).0 != (#[trigger] counts@[b]).0,
            forall|a: int|
                0 <= a < counts@.len() ==> (#[trigger] counts@[a]).1 == worked_of_task(
                    w.take(k as int),
                    counts@[a].0,
                ) && counts@[a].1 > 0,
            forall|task: TaskId|
                #[trigger] worked_of_task(w.take(k as int), task) > 0 ==> exists|a: int|
                    0 <= a < counts@.len() && (#[trigger] counts@[a]).0 == task,
        decreases work@.len() - k,
    {
        let check = &work[k];
        proof {
            assert(w[k as int] == check@);
            assert(w.take(k as int + 1).drop_last() =~= w.take(k as int));
            assert(w.take(k as int + 1).last() == check@);
        }
        let ghost old_counts = counts@;
        if check.status() == CheckStatus::Worked {
            let task = check.task_id();
            match position_of(&counts, task) {
                Some(p) => {
                    let current = counts[p].1;
                    proof {
                        lemma_worked_of_task_step(w, k as int, task);
                        lemma_worked_of_task_prefix(w, k as int + 1, task);
                        lemma_worked_of_task_bounded(w, task);
                    }
                    counts.set(p, (task, current + 1));
                },
                None => {
                    counts.push((task, 1));
                },
            }
        }
        proof {
            assert forall|a: int| 0 <= a < counts@.len() implies (#[trigger] counts@[a]).1
                == worked_of_task(w.take(k as int + 1), counts@[a].0) && counts@[a].1 > 0 by {
                lemma_worked_of_task_step(w, k as int, counts@[a].0);
                if a < old_counts.len() {
                    assert(old_counts[a].1 == worked_of_task(w.take(k as int), old_counts[a].0));
                }
            }
            assert forall|task: TaskId| #[trigger] worked_of_task(w.take(k as int + 1), task) > 0 implies exists|
                a: int,
            | 0 <= a < counts@.len() && (#[trigger] counts@[a]).0 == task by {
                lemma_worked_of_task_step(w, k as int, task);
                if worked_of_task(w.take(k as int), task) > 0 {
                    let a = choose|a: int| 0 <= a < old_counts.len() && (#[trigger] old_counts[a]).0 == task;
                    assert(counts@[a].0 == task);
                } else {
                    assert(check@.task_id == task);
                    assert(counts@.last().0 == task);
                }
            }
            assert forall|a: int, b: int| 0 <= a < b < counts@.len() implies (#[trigger] counts@[a]).0
                != (#[trigger] counts@[b]).0 by {
                if b < old_counts.len() {
                    assert(old_counts[a].0 != old_counts[b].0);
                }
            }
        }
        k = k + 1;
    }
    proof {
        assert(w.take(k as int) =~= w);
    }
    proof {
        assert(classified@ == spec_c);
        assert(rest_task_id == rest_task(spec_c));
    }
    let ghost counts_before_rest = counts@;
    if rest_earned {
        match rest_task_id {
            Some(task) => {
                if position_of(&counts, task).is_none() {
                    counts.push((task, 0));
                }
            },
            None => {},
        }
    }
    proof {
        assert forall|a: int| 0 <= a < counts@.len() implies (#[trigger] counts@[a]).1 == worked_of_task(
            w,
            counts@[a].0,
        ) && has_interval_time(spec_c, counts@[a].0) by {
            if a < counts_before_rest.len() {
                assert(counts_before_rest[a] == counts@[a]);
            } else {
                assert(worked_of_task(w, counts@[a].0) == 0) by {
                    if worked_of_task(w, counts@[a].0) > 0 {
                        let b = choose|b: int| 0 <= b < counts_before_rest.len() && (#[trigger] counts_before_rest[b]).0 == counts@[a].0;
                    }
                }
            }
        }
        assert forall|task: TaskId| has_interval_time(spec_c, task) implies exists|a: int|
            0 <= a < counts@.len() && (#[trigger] counts@[a]).0 == task by {
            if worked_of_task(w, task) > 0 {
                let b = choose|b: int| 0 <= b < counts_before_rest.len() && (#[trigger] counts_before_rest[b]).0 == task;
                assert(counts@[b].0 == task);
            } else {
                assert(earns_rest(spec_c, task));
                if counts@.len() > counts_before_rest.len() {
                    assert(counts@.last().0 == task);
                } else {
                    let p = choose|p: int| 0 <= p < counts@.len() && counts@[p].0 == task;
                }
            }
        }
        assert forall|a: int, b: int| 0 <= a < b < counts@.len() implies (#[trigger] counts@[a]).0
            != (#[trigger] counts@[b]).0 by {
            if b < counts_before_rest.len() {
                assert(counts_before_rest[a].0 != counts_before_rest[b].0);
            }
        }
    }
    let mut totals: Vec<(TaskId, Duration)> = Vec::new();
    let mut i: usize = 0;
    while i < counts.len()
        invariant
            i <= counts@.len(),
            totals@.len() == i,
            forall|a: int, b: int|
                0 <= a < b < counts@.len() ==> (#[trigger] counts@[a]).0 != (#[trigger] counts@[b]).0,
            forall|a: int|
                0 <= a < counts@.len() ==> (#[trigger] counts@[a]).1 == worked_of_task(w, counts@[a].0)
                    && has_interval_time(spec_c, counts@[a].0),
            forall|task: TaskId|
                has_interval_time(spec_c, task) ==> exists|a: int|
                    0 <= a < counts@.len() && (#[trigger] counts@[a]).0 == task,
            forall|a: int|
                0 <= a < i ==> (#[trigger] totals@[a]).0 == counts@[a].0
                    && totals@[a].1.spec_millis() == interval_task_millis(spec_c, counts@[a].0),
            rest_earned == spec_work_stage_closed(spec_c.closed_work_statuses),
            rest_task_id == rest_task(spec_c),
            w == spec_c.closed_work_checks,
        decreases counts@.len() - i,
    {
        let (task, count) = counts[i];
        let earns = rest_earned && match rest_task_id {
            Some(rest) => rest == task,
            None => false,
        };
        totals.push((task, task_time(count, earns)));
        i = i + 1;
    }
    proof {
        assert forall|task: TaskId| has_interval_time(spec_c, task) implies exists|j: int|
            0 <= j < totals@.len() && (#[trigger] totals@[j]).0 == task by {
            let a = choose|a: int| 0 <= a < counts@.len() && (#[trigger] counts@[a]).0 == task;
            assert(totals@[a].0 == task);
        }
        assert forall|a: int, b: int| 0 <= a < b < totals@.len() implies (#[trigger] totals@[a]).0
            != (#[trigger] totals@[b]).0 by {
            assert(counts@[a].0 != counts@[b].0);
        }
    }
    totals
}


/// A task never gets more than an hour from one interval: at most five
/// worked checks, plus the rest.
pub proof fn lemma_interval_task_time_bounded(checks: Seq<TenMinCheck>, task: TaskId)
    ensures
        0 <= interval_task_millis(spec_classify(checks), task) <= 3_600_000,
{
    let c = spec_classify(checks);
    lemma_classification_shape(in_start_order(checks));
    lemma_worked_of_task_bounded(c.closed_work_checks, task);
}

/// The classifications of the checks of several intervals.
pub open spec fn classify_all(checks: Seq<Vec<TenMinCheck>>) -> Seq<ClassifiedView> {
    checks.map_values(|v: Vec<TenMinCheck>| spec_classify(v@))
}

/// Task `task` gets time from at least one of the intervals.
pub open spec fn has_total_time(cs: Seq<ClassifiedView>, task: TaskId) -> bool
    decreases cs.len(),
{
    if cs.len() == 0 {
        false
    } else {
        has_total_time(cs.drop_last(), task) || has_interval_time(cs.last(), task)
    }
}

/// Time (in milliseconds) that task `task` gets from all the intervals.
pub open spec fn total_task_millis(cs: Seq<ClassifiedView>, task: TaskId) -> int
    decreases cs.len(),
{
    if cs.len() == 0 {
        0
    } else {
        total_task_millis(cs.drop_last(), task) + if has_interval_time(cs.last(), task) {
            interval_task_millis(cs.last(), task)
        } else {
            0
        }
    }
}

/// `totals` lists, once each and in no particular order, the tasks that get
/// time from the intervals, with the sum of that time.
pub open spec fn is_total_time(cs: Seq<ClassifiedView>, totals: Seq<(TaskId, Duration)>) -> bool {
    &&& forall|i: int|
        0 <= i < totals.len() ==> has_total_time(cs, (#[trigger] totals[i]).0)
            && totals[i].1.spec_millis() == total_task_millis(cs, totals[i].0)
    &&& forall|i: int, j: int|
        0 <= i < j < totals.len() ==> (#[trigger] totals[i]).0 != (#[trigger] totals[j]).0
    &&& forall|task: TaskId|
        has_total_time(cs, task) ==> exists|i: int| 0 <= i < totals.len() && (#[trigger] totals[i]).0 == task
}

/// Most intervals the totals can add up without overflowing a span.
pub const MAX_INTERVALS_IN_TOTAL: usize = 2_562_047_788;

proof fn lemma_total_task_millis_bounded(checks: Seq<Vec<TenMinCheck>>, task: TaskId)
    ensures
        0 <= total_task_millis(classify_all(checks), task) <= checks.len() * 3_600_000,
    decreases checks.len(),
{
    if checks.len() > 0 {
        assert(classify_all(checks).drop_last() =~= classify_all(checks.drop_last()));
        lemma_total_task_millis_bounded(checks.drop_last(), task);
        lemma_interval_task_time_bounded(checks.last()@, task);
    }
}

/// Time per task summed over the intervals, each interval's checks in any
/// order; every task appears once, in no particular order.
pub fn total_time_by_task(checks: &Vec<Vec<TenMinCheck>>) -> (totals: Vec<(TaskId, Duration)>)
    requires
        checks@.len() <= MAX_INTERVALS_IN_TOTAL,
    ensures
        is_total_time(classify_all(checks@), totals@),
{
    let ghost cs = classify_all(checks@);
    let mut totals: Vec<(TaskId, Duration)> = Vec::new();
    let mut k: usize = 0;
    while k < checks.len()
        invariant
            k <= checks@.len(),
            checks@.len() <= MAX_INTERVALS_IN_TOTAL,
            cs == classify_all(checks@),
            is_total_time(cs.take(k as int), totals@),
        decreases checks@.len() - k,
    {
        let ghost before = totals@;
        let ghost prefix = cs.take(k as int);
        let ghost next = cs.take(k as int + 1);
        proof {
            assert(next.drop_last() =~= prefix);
            assert(next.last() == spec_classify(checks@[k as int]@));
            assert(checks@.take(k as int + 1).drop_last() =~= checks@.take(k as int));
            assert(classify_all(checks@.take(k as int + 1)) =~= next);
        }
        let interval_totals = task_time_totals_for_interval(&checks[k]);
        let mut j: usize = 0;
        while j < interval_totals.len()
            invariant
                k < checks@.len(),
                checks@.len() <= MAX_INTERVALS_IN_TOTAL,
                j <= interval_totals@.len(),
                next.drop_last() == prefix,
                next.last() == spec_classify(checks@[k as int]@),
                next == classify_all(checks@.take(k as int + 1)),
                is_interval_totals(next.last(), interval_totals@),
                forall|a: int, b: int|
                    0 <= a < b < totals@.len() ==> (#[trigger] totals@[a]).0 != (#[trigger] totals@[b]).0,
                forall|a: int|
                    0 <= a < totals@.len() ==> (has_total_time(prefix, (#[trigger] totals@[a]).0)
                        || exists|b: int| 0 <= b < j && interval_totals@[b].0 == totals@[a].0),
                forall|a: int|
                    0 <= a < totals@.len() ==> (#[trigger] totals@[a]).1.spec_millis()
                        == total_task_millis(prefix, totals@[a].0) + if exists|b: int|
                        0 <= b < j && interval_totals@[b].0 == totals@[a].0 {
                        interval_task_millis(next.last(), totals@[a].0)
                    } else {
                        0
                    },
                forall|task: TaskId|
                    #[trigger] has_total_time(prefix, task) ==> exists|a: int|
                        0 <= a < totals@.len() && (#[trigger] totals@[a]).0 == task,
                forall|b: int|
                    0 <= b < j ==> exists|a: int|
                        0 <= a < totals@.len() && (#[trigger] totals@[a]).0 == (
                        #[trigger] interval_totals@[b]).0,
            decreases interval_totals@.len() - j,
        {
            let (task, duration) = interval_totals[j];
            let ghost old_totals = totals@;
            let ghost mut pos: int = 0;
            proof {
                lemma_total_task_millis_bounded(checks@.take(k as int + 1), task);
                lemma_interval_task_time_bounded(checks@[k as int]@, task);
                assert forall|b: int| 0 <= b < j implies interval_totals@[b].0 != task by {
                    assert(interval_totals@[b].0 != interval_totals@[j as int].0);
                }
            }
            match position_of_total(&totals, task) {
                Some(p) => {
                    let current = totals[p].1;
                    proof {
                        lemma_total_task_millis_bounded(checks@.take(k as int), task);
                        assert(checks@.take(k as int).len() == k);
                    }
                    totals.set(p, (task, current.plus(&duration)));
                    proof {
                        pos = p as int;
                    }
                },
                None => {
                    totals.push((task, duration));
                    proof {
                        pos = old_totals.len() as int;
                    }
                },
            }
            proof {
                assert forall|a: int| 0 <= a < totals@.len() implies (#[trigger] totals@[a]).1.spec_millis()
                    == total_task_millis(prefix, totals@[a].0) + if exists|b: int|
                    0 <= b < j + 1 && interval_totals@[b].0 == totals@[a].0 {
                    interval_task_millis(next.last(), totals@[a].0)
                } else {
                    0
                } by {
                    if totals@[a].0 == task {
                        assert(interval_totals@[j as int].0 == task);
                        if a >= old_totals.len() {
                            if has_total_time(prefix, task) {
                                let q = choose|q: int| 0 <= q < old_totals.len() && (#[trigger] old_totals[q]).0 == task;
                            }
                            assert(!has_total_time(prefix, task));
                            lemma_not_has_total_time_is_zero(prefix, task);
                        }
                    } else {
                        if exists|b: int| 0 <= b < j + 1 && interval_totals@[b].0 == totals@[a].0 {
                            let b = choose|b: int| 0 <= b < j + 1 && interval_totals@[b].0 == totals@[a].0;
                            assert(b < j);
                        }
                        assert(old_totals[a] == totals@[a]);
                    }
                }
                assert forall|a: int| 0 <= a < totals@.len() implies (has_total_time(prefix, (#[trigger] totals@[a]).0)
                    || exists|b: int| 0 <= b < j + 1 && interval_totals@[b].0 == totals@[a].0) by {
                    if totals@[a].0 == task {
                        assert(interval_totals@[j as int].0 == task);
                    } else {
                        assert(old_totals[a] == totals@[a]);
                        if !has_total_time(prefix, totals@[a].0) {
                            let b = choose|b: int| 0 <= b < j && interval_totals@[b].0 == totals@[a].0;
                            assert(0 <= b < j + 1 && interval_totals@[b].0 == totals@[a].0);
                        }
                    }
                }
                assert(totals@[pos].0 == task);
                assert forall|t: TaskId| #[trigger] has_total_time(prefix, t) implies exists|a: int|
                    0 <= a < totals@.len() && (#[trigger] totals@[a]).0 == t by {
                    let a = choose|a: int| 0 <= a < old_totals.len() && (#[trigger] old_totals[a]).0 == t;
                    if t == task {
                        assert(totals@[pos].0 == t);
                    } else {
                        assert(totals@[a].0 == t);
                    }
                }
                assert forall|b: int| 0 <= b < j + 1 implies exists|a: int|
                    0 <= a < totals@.len() && (#[trigger] totals@[a]).0 == (
                    #[trigger] interval_totals@[b]).0 by {
                    if interval_totals@[b].0 == task {
                        assert(totals@[pos].0 == task);
                    } else {
                        let a = choose|a: int| 0 <= a < old_totals.len() && (#[trigger] old_totals[a]).0 == interval_totals@[b].0;
                        assert(totals@[a].0 == interval_totals@[b].0);
                    }
                }
                assert forall|a: int, b: int| 0 <= a < b < totals@.len() implies (#[trigger] totals@[a]).0
                    != (#[trigger] totals@[b]).0 by {
                    if b < old_totals.len() {
                        assert(old_totals[a].0 != old_totals[b].0);
                    } else {
                        assert(old_totals[a].0 != task);
                    }
                }
            }
            j = j + 1;
        }
        proof {
            assert forall|a: int| 0 <= a < totals@.len() implies has_total_time(next, (#[trigger] totals@[a]).0)
                && totals@[a].1.spec_millis() == total_task_millis(next, totals@[a].0) by {
                let t = totals@[a].0;
                if exists|b: int| 0 <= b < j && interval_totals@[b].0 == t {
                    let b = choose|b: int| 0 <= b < j && interval_totals@[b].0 == t;
                    assert(has_interval_time(next.last(), interval_totals@[b].0));
                } else {
                    if has_interval_time(next.last(), t) {
                        let b = choose|b: int| 0 <= b < interval_totals@.len() && (#[trigger] interval_totals@[b]).0 == t;
                        assert(false);
                    }
                }
            }
            assert forall|t: TaskId| #[trigger] has_total_time(next, t) implies exists|a: int|
                0 <= a < totals@.len() && (#[trigger] totals@[a]).0 == t by {
                if has_total_time(prefix, t) {
                    let a = choose|a: int| 0 <= a < totals@.len() && (#[trigger] totals@[a]).0 == t;
                } else {
                    assert(has_interval_time(next.last(), t));
                    let b = choose|b: int| 0 <= b < interval_totals@.len() && (#[trigger] interval_totals@[b]).0 == t;
                    assert(0 <= b < j);
                    let a = choose|a: int| 0 <= a < totals@.len() && (#[trigger] totals@[a]).0 == (#[trigger] interval_totals@[b]).0;
                }
            }
        }
        k = k + 1;
    }
    proof {
        assert(cs.take(k as int) =~= cs);
    }
    totals
}

proof fn lemma_not_has_total_time_is_zero(cs: Seq<ClassifiedView>, task: TaskId)
    requires
        !has_total_time(cs, task),
    ensures
        total_task_millis(cs, task) == 0,
    decreases cs.len(),
{
    if cs.len() > 0 {
        lemma_not_has_total_time_is_zero(cs.drop_last(), task);
    }
}

fn position_of_total(totals: &Vec<(TaskId, Duration)>, task: TaskId) -> (r: Option<usize>)
    ensures
        r matches Some(p) ==> p < totals@.len() && totals@[p as int].0 == task,
        r is None ==> forall|a: int| 0 <= a < totals@.len() ==> (#[trigger] totals@[a]).0 != task,
{
    let mut a: usize = 0;
    while a < totals.len()
        invariant
            a <= totals@.len(),
            forall|b: int| 0 <= b < a ==> (#[trigger] totals@[b]).0 != task,
        decreases totals@.len() - a,
    {
        if totals[a].0 == task {
            return Some(a);
        }
        a = a + 1;
    }
    None
}


/// Check `check_id` is the rest check of its interval (the one created after
/// five worked checks), judged from all checks of that interval.
pub open spec fn spec_is_rest_check(check_id: TenMinCheckId, siblings: Seq<TenMinCheck>) -> bool {
    spec_classify(siblings).rest_check matches Some(rest) && rest.id == check_id
}

/// Whether check `check_id` is the rest slot of the interval whose checks
/// are `siblings`.
pub fn is_rest_check(check_id: TenMinCheckId, siblings: &Vec<TenMinCheck>) -> (b: bool)
    ensures
        b == spec_is_rest_check(check_id, siblings@),
{
    let classified = classify_checks(siblings);
    match &classified.rest_check {
        Some(rest) => rest.id() == check_id,
        None => false,
    }
}


/// A new open check of interval `interval_id` for task `task_id`, started
/// at `now`; its id is assigned by storage, and its status is a placeholder
/// until it closes.
pub open spec fn spec_draft_check(interval_id: HourIntervalId, task_id: TaskId, now: UtcTimestamp) -> TenMinCheckView {
    TenMinCheckView {
        id: TenMinCheckId::spec_placeholder(),
        hour_interval_id: interval_id,
        task_id,
        started_at: now,
        ended_at: None,
        status: CheckStatus::Worked,
        reason: None,
    }
}

/// The open check that starts a new slot.
pub fn draft_check(interval_id: HourIntervalId, task_id: TaskId, now: UtcTimestamp) -> (c: TenMinCheck)
    ensures
        c@ == spec_draft_check(interval_id, task_id, now),
{
    let id = TenMinCheckId::new(0);
    proof {
        TenMinCheckId::lemma_placeholder(id);
    }
    TenMinCheck::new(id, interval_id, task_id, now, None, CheckStatus::Worked, None)
}

} // verus!

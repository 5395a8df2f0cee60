//! The task pool, filtered and sorted.
use vstd::prelude::*;

use crate::ordering::{stable_order, stable_order_by_key};
use crate::task::{Task, TaskPriority, TaskStatus, TaskView};

verus! {

/// Which tasks of the pool to list.
#[derive(Debug, Clone, Copy, PartialEq, Eq, Structural)]
pub enum TaskFilter {
    Ready,
    NotReady,
    All,
}

/// The task is listed under the filter.
pub open spec fn passes(filter: TaskFilter, task: TaskView) -> bool {
    match filter {
        TaskFilter::Ready => task.status == TaskStatus::Ready,
        TaskFilter::NotReady => task.status == TaskStatus::NotReady,
        TaskFilter::All => true,
    }
}

/// The tasks that the filter lets through, in input order.
pub open spec fn filtered(tasks: Seq<Task>, filter: TaskFilter) -> Seq<Task>
    decreases tasks.len(),
{
    if tasks.len() == 0 {
        Seq::empty()
    } else {
        let prev = filtered(tasks.drop_last(), filter);
        if passes(filter, tasks.last()@) {
            prev.push(tasks.last())
        } else {
            prev
        }
    }
}

/// Rank of a priority: high, medium, low, then none.
pub open spec fn priority_rank(priority: Option<TaskPriority>) -> int {
    match priority {
        Some(TaskPriority::High) => 0,
        Some(TaskPriority::Medium) => 1,
        Some(TaskPriority::Low) => 2,
        None => 3,
    }
}

/// The sort key of a task, packed in one integer so that integer order is
/// the order of (priority rank, has no deadline, deadline): priority first,
/// then an earlier deadline, tasks without a deadline last.
pub open spec fn sort_key(task: TaskView) -> i64 {
    let deadline_part = match task.deadline {
        Some(d) => 1 + d.spec_day_number() + 2_147_483_648,
        None => 4_294_967_297,
    };
    (priority_rank(task.priority) * 8_589_934_592 + deadline_part) as i64
}

/// Sort keys of the tasks.
pub open spec fn sort_keys(tasks: Seq<Task>) -> Seq<i64> {
    tasks.map_values(|t: Task| sort_key(t@))
}

/// The listed tasks: the filtered pool, stably sorted by the key.
pub open spec fn spec_listed(tasks: Seq<Task>, filter: TaskFilter) -> Seq<TaskView> {
    let pool = filtered(tasks, filter);
    stable_order(sort_keys(pool)).map_values(|p: usize| pool[p as int]@)
}

/// The packed key orders tasks by priority rank, then puts tasks with a
/// deadline before tasks without one, then orders by deadline.
pub proof fn lemma_sort_key_order(a: TaskView, b: TaskView)
    ensures
        priority_rank(a.priority) < priority_rank(b.priority) ==> sort_key(a) < sort_key(b),
        priority_rank(a.priority) == priority_rank(b.priority) && a.deadline is Some
            && b.deadline is None ==> sort_key(a) < sort_key(b),
        priority_rank(a.priority) == priority_rank(b.priority) && a.deadline is Some
            && b.deadline is Some ==> (sort_key(a) < sort_key(b) <==> a.deadline->0.spec_day_number()
            < b.deadline->0.spec_day_number()),
        priority_rank(a.priority) == priority_rank(b.priority) && a.deadline is None
            && b.deadline is None ==> sort_key(a) == sort_key(b),
{
}

/// Under `All` no task is filtered out.
proof fn lemma_all_keeps_every_task(tasks: Seq<Task>)
    ensures
        filtered(tasks, TaskFilter::All) == tasks,
    decreases tasks.len(),
{
    if tasks.len() > 0 {
        lemma_all_keeps_every_task(tasks.drop_last());
        assert(tasks.drop_last().push(tasks.last()) =~= tasks);
    }
}

/// Under `TaskFilter::All` the listing holds every task of the pool once:
/// as many tasks as the pool, each the pool's task at a distinct position.
pub proof fn lemma_all_lists_the_whole_pool(tasks: Seq<Task>)
    requires
        tasks.len() <= usize::MAX,
    ensures
        spec_listed(tasks, TaskFilter::All).len() == tasks.len(),
        exists|p: Seq<int>|
            #![trigger p.no_duplicates()]
            p.len() == tasks.len() && p.no_duplicates() && (forall|j: int|
                0 <= j < p.len() ==> 0 <= #[trigger] p[j] < tasks.len() && spec_listed(tasks, TaskFilter::All)[j]
                    == tasks[p[j]]@),
{
    lemma_all_keeps_every_task(tasks);
    let keys = sort_keys(tasks);
    crate::ordering::lemma_stable_order_exists(keys);
    let o = stable_order(keys);
    let p = o.map_values(|x: usize| x as int);
    assert forall|a: int, b: int| 0 <= a < p.len() && 0 <= b < p.len() && a != b implies p[a] != p[b] by {
        if a < b {
            assert(crate::ordering::precedes(keys, o[a] as int, o[b] as int));
        } else {
            assert(crate::ordering::precedes(keys, o[b] as int, o[a] as int));
        }
    }
    assert(p.no_duplicates());
    assert forall|j: int| 0 <= j < p.len() implies 0 <= #[trigger] p[j] < tasks.len()
        && spec_listed(tasks, TaskFilter::All)[j] == tasks[p[j]]@ by {
        assert(o[j] < keys.len());
    }
}

fn rank_of(priority: Option<TaskPriority>) -> (r: i64)
    ensures
        r == priority_rank(priority),
{
    match priority {
        Some(TaskPriority::High) => 0,
        Some(TaskPriority::Medium) => 1,
        Some(TaskPriority::Low) => 2,
        None => 3,
    }
}

fn key_of(task: &Task) -> (k: i64)
    ensures
        k == sort_key(task@),
{
    let deadline_part: i64 = match task.deadline() {
        Some(d) => 1 + d.day_number() as i64 + 2_147_483_648,
        None => 4_294_967_297,
    };
    rank_of(task.priority()) * 8_589_934_592 + deadline_part
}

/// Lists the user's pool sorted by priority (high, medium, low, none), then
/// by deadline (earlier first, none last); equal keys keep pool order.
pub struct ListAvailableTasks;

impl ListAvailableTasks {
    pub fn new() -> (u: Self) {
        ListAvailableTasks
    }

    /// The listed tasks, from all tasks of the user.
    pub fn execute(&self, tasks: &Vec<Task>, filter: TaskFilter) -> (r: Vec<Task>)
        ensures
            r@.map_values(|t: Task| t@) == spec_listed(tasks@, filter),
    {
        let mut pool: Vec<Task> = Vec::new();
        let mut i: usize = 0;
        while i < tasks.len()
            invariant
                i <= tasks@.len(),
                pool@.map_values(|t: Task| t@) == filtered(tasks@.take(i as int), filter).map_values(
                    |t: Task| t@,
                ),
            decreases tasks@.len() - i,
        {
            proof {
                assert(tasks@.take(i as int + 1).drop_last() =~= tasks@.take(i as int));
            }
            let keep = match filter {
                TaskFilter::Ready => tasks[i].status() == TaskStatus::Ready,
                TaskFilter::NotReady => tasks[i].status() == TaskStatus::NotReady,
                TaskFilter::All => true,
            };
            if keep {
                let ghost before = pool@;
                pool.push(tasks[i].clone());
                proof {
                    assert(pool@.map_values(|t: Task| t@) =~= before.map_values(|t: Task| t@).push(
                        tasks@[i as int]@,
                    ));
                    assert(filtered(tasks@.take(i as int + 1), filter).map_values(|t: Task| t@)
                        =~= filtered(tasks@.take(i as int), filter).map_values(|t: Task| t@).push(
                        tasks@[i as int]@,
                    ));
                }
            }
            i = i + 1;
        }
        proof {
            assert(tasks@.take(i as int) =~= tasks@);
        }
        let ghost spec_pool = filtered(tasks@, filter);
        let mut keys: Vec<i64> = Vec::new();
        let mut k: usize = 0;
        while k < pool.len()
            invariant
                k <= pool@.len(),
                pool@.map_values(|t: Task| t@) == spec_pool.map_values(|t: Task| t@),
                keys@ =~= sort_keys(spec_pool).take(k as int),
            decreases pool@.len() - k,
        {
            proof {
                assert(pool@.map_values(|t: Task| t@).len() == spec_pool.map_values(|t: Task| t@).len());
                assert(pool@.map_values(|t: Task| t@)[k as int] == spec_pool.map_values(|t: Task| t@)[k as int]);
                assert(pool@[k as int]@ == spec_pool[k as int]@);
                assert(sort_keys(spec_pool)[k as int] == sort_key(spec_pool[k as int]@));
                assert(sort_keys(spec_pool).take(k as int + 1) =~= sort_keys(spec_pool).take(k as int).push(sort_key(spec_pool[k as int]@)));
            }
            keys.push(key_of(&pool[k]));
            k = k + 1;
        }
        proof {
            assert(pool@.len() == spec_pool.len()) by {
                assert(pool@.map_values(|t: Task| t@).len() == spec_pool.map_values(|t: Task| t@).len());
            }
            assert(keys@ =~= sort_keys(spec_pool));
        }
        let order = stable_order_by_key(&keys);
        let mut result: Vec<Task> = Vec::new();
        let mut j: usize = 0;
        while j < order.len()
            invariant
                j <= order@.len(),
                order@ == stable_order(sort_keys(spec_pool)),
                order@.len() == pool@.len(),
                pool@.len() == spec_pool.len(),
                forall|q: int| 0 <= q < order@.len() ==> (#[trigger] order@[q]) < pool@.len(),
                pool@.map_values(|t: Task| t@) == spec_pool.map_values(|t: Task| t@),
                result@.map_values(|t: Task| t@) =~= stable_order(sort_keys(spec_pool)).map_values(
                    |p: usize| spec_pool[p as int]@,
                ).take(j as int),
            decreases order@.len() - j,
        {
            let p = order[j];
            proof {
                assert(pool@.map_values(|t: Task| t@)[p as int] == spec_pool.map_values(|t: Task| t@)[p as int]);
            }
            let ghost before = result@;
            result.push(pool[p].clone());
            proof {
                assert(result@.map_values(|t: Task| t@) =~= before.map_values(|t: Task| t@).push(
                    spec_pool[p as int]@,
                ));
            }
            j = j + 1;
        }
        result
    }
}

} // verus!

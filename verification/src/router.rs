//! The registry of scheduler units and the assignment of processes to them.

use vstd::prelude::*;

verus! {

/// A scheduler unit of the pool.  `row_id` is given by the store when the
/// record is saved; `process_count` is the number of processes assigned to
/// the unit.
#[derive(Debug, PartialEq, Eq)]
pub struct Scheduler {
    pub row_id: Option<i32>,
    pub url: String,
    pub process_count: i32,
}

/// What a `Scheduler` holds.
pub struct SchedulerView {
    pub row_id: Option<i32>,
    pub url: Seq<char>,
    pub process_count: i32,
}

impl View for Scheduler {
    type V = SchedulerView;

    open spec fn view(&self) -> SchedulerView {
        SchedulerView { row_id: self.row_id, url: self.url@, process_count: self.process_count }
    }
}

impl Clone for Scheduler {
    fn clone(&self) -> (copy: Self)
        ensures
            copy == *self,
    {
        Scheduler {
            row_id: self.row_id,
            url: self.url.clone(),
            process_count: self.process_count,
        }
    }
}

/// The assignment of a process to the scheduler unit in row
/// `scheduler_row_id`.  Made once per process and never changed.
#[derive(Debug, PartialEq, Eq)]
pub struct ProcessScheduler {
    pub row_id: Option<i32>,
    pub process_id: String,
    pub scheduler_row_id: i32,
}

/// What a `ProcessScheduler` holds.
pub struct ProcessSchedulerView {
    pub row_id: Option<i32>,
    pub process_id: Seq<char>,
    pub scheduler_row_id: i32,
}

impl View for ProcessScheduler {
    type V = ProcessSchedulerView;

    open spec fn view(&self) -> ProcessSchedulerView {
        ProcessSchedulerView {
            row_id: self.row_id,
            process_id: self.process_id@,
            scheduler_row_id: self.scheduler_row_id,
        }
    }
}

impl Clone for ProcessScheduler {
    fn clone(&self) -> (copy: Self)
        ensures
            copy == *self,
    {
        ProcessScheduler {
            row_id: self.row_id,
            process_id: self.process_id.clone(),
            scheduler_row_id: self.scheduler_row_id,
        }
    }
}

/// The position of the least loaded unit of `pool`: the first of those with
/// the smallest process count.
pub open spec fn least_loaded(pool: Seq<SchedulerView>) -> Option<int>
    decreases pool.len(),
{
    if pool.len() == 0 {
        None
    } else {
        match least_loaded(pool.drop_last()) {
            Some(j) => if pool.last().process_count < pool[j].process_count {
                Some(pool.len() - 1)
            } else {
                Some(j)
            },
            None => Some(pool.len() - 1),
        }
    }
}

/// The least loaded unit has no unit with a smaller count beside it and no
/// unit with the same count before it; only an empty pool has none.
pub proof fn lemma_least_loaded(pool: Seq<SchedulerView>)
    ensures
        match least_loaded(pool) {
            Some(j) => {
                &&& 0 <= j < pool.len()
                &&& forall|i: int|
                    0 <= i < pool.len() ==> pool[j].process_count <= (
                    #[trigger] pool[i]).process_count
                &&& forall|i: int|
                    0 <= i < j ==> pool[j].process_count < (#[trigger] pool[i]).process_count
            },
            None => pool.len() == 0,
        },
    decreases pool.len(),
{
    if pool.len() > 0 {
        lemma_least_loaded(pool.drop_last());
        assert(forall|i: int| 0 <= i < pool.len() - 1 ==> pool.drop_last()[i] == pool[i]);
    }
}

/// The views of the records in `records`, in order.
pub open spec fn scheduler_views(records: Seq<Scheduler>) -> Seq<SchedulerView> {
    Seq::new(records.len(), |i: int| records[i]@)
}

/// Finds the least loaded unit of `pool`.
pub fn select_scheduler(pool: &Vec<Scheduler>) -> (chosen: Option<usize>)
    ensures
        match chosen {
            Some(j) => least_loaded(scheduler_views(pool@)) == Some(j as int),
            None => least_loaded(scheduler_views(pool@)) is None,
        },
{
    if pool.len() == 0 {
        return None;
    }
    let ghost views = scheduler_views(pool@);
    let mut best: usize = 0;
    let mut i: usize = 1;
    assert(least_loaded(views.take(1).drop_last()) is None);
    while i < pool.len()
        invariant
            1 <= i <= pool.len(),
            views == scheduler_views(pool@),
            least_loaded(views.take(i as int)) == Some(best as int),
            best < i,
        decreases pool.len() - i,
    {
        assert(views.take(i + 1).drop_last() =~= views.take(i as int));
        if pool[i].process_count < pool[best].process_count {
            best = i;
        }
        i += 1;
    }
    assert(views.take(i as int) =~= views);
    Some(best)
}

/// What assigning a new process changes: the assignment to save and the
/// chosen unit with the process counted in.
#[derive(Debug, PartialEq, Eq)]
pub struct Assignment {
    pub process_scheduler: ProcessScheduler,
    pub scheduler: Scheduler,
}

/// Why a new process could not be assigned.
#[derive(Clone, Copy, Debug, PartialEq, Eq, Structural)]
pub enum AssignError {
    /// The pool is empty, or its least loaded unit can take no further
    /// process.
    NoSchedulers,
    /// The least loaded unit has no row id.
    MissingSchedulerId,
}

/// The assignment of process `process_id` to the least loaded unit of `pool`.
pub open spec fn assigned(pool: Seq<SchedulerView>, process_id: Seq<char>) -> Result<
    (ProcessSchedulerView, SchedulerView),
    AssignError,
> {
    match least_loaded(pool) {
        None => Err(AssignError::NoSchedulers),
        Some(j) => if pool[j].process_count == i32::MAX {
            Err(AssignError::NoSchedulers)
        } else {
            match pool[j].row_id {
                None => Err(AssignError::MissingSchedulerId),
                Some(row_id) => Ok(
                    (
                        ProcessSchedulerView { row_id: None, process_id, scheduler_row_id: row_id },
                        SchedulerView {
                            process_count: (pool[j].process_count + 1) as i32,
                            ..pool[j]
                        },
                    ),
                ),
            }
        },
    }
}

/// Assigns process `process_id` to the least loaded unit of `pool`.
pub fn assign_process(pool: &Vec<Scheduler>, process_id: &String) -> (assignment: Result<
    Assignment,
    AssignError,
>)
    ensures
        match assignment {
            Ok(a) => assigned(scheduler_views(pool@), process_id@) == Ok::<
                (ProcessSchedulerView, SchedulerView),
                AssignError,
            >((a.process_scheduler@, a.scheduler@)),
            Err(e) => assigned(scheduler_views(pool@), process_id@) == Err::<
                (ProcessSchedulerView, SchedulerView),
                AssignError,
            >(e),
        },
{
    let chosen = match select_scheduler(pool) {
        Some(j) => j,
        None => {
            return Err(AssignError::NoSchedulers);
        },
    };
    proof {
        lemma_least_loaded(scheduler_views(pool@));
    }
    let unit = &pool[chosen];
    if unit.process_count == i32::MAX {
        return Err(AssignError::NoSchedulers);
    }
    let row_id = match unit.row_id {
        Some(r) => r,
        None => {
            return Err(AssignError::MissingSchedulerId);
        },
    };
    Ok(
        Assignment {
            process_scheduler: ProcessScheduler {
                row_id: None,
                process_id: process_id.clone(),
                scheduler_row_id: row_id,
            },
            scheduler: Scheduler {
                row_id: unit.row_id,
                url: unit.url.clone(),
                process_count: unit.process_count + 1,
            },
        },
    )
}

} // verus!

//! The data store: four tables, each in insertion order.
//!
//! Messages and processes are found by their ids.  Scheduler units and
//! assignments get a row id when they are saved: the first row of a table gets
//! 1, the next 2, and so on; no row is ever deleted.

use crate::json::{Message, MessageView, Process, ProcessView};
use crate::router::{
    scheduler_views, ProcessScheduler, ProcessSchedulerView, Scheduler, SchedulerView,
};
use crate::rows::{
    first_match, last_match, lemma_first_match_at, lemma_first_match_none, lemma_last_match,
    matching,
};
use vstd::prelude::*;

verus! {

/// Why the store could not answer.
#[derive(Clone, Copy, Debug, PartialEq, Eq, Structural)]
pub enum StoreErrorType {
    /// No record has the key that was asked for.
    NotFound,
    /// The table can hold no further row.
    DatabaseError,
}

/// The row id of the row at position `i` of a table: one more than the
/// position, as far as the type of a row id reaches.
pub open spec fn row_id_at(i: int) -> Option<i32> {
    if 0 <= i < i32::MAX {
        Some((i + 1) as i32)
    } else {
        None
    }
}

/// What a store holds.
pub struct StoreView {
    pub messages: Seq<MessageView>,
    pub processes: Seq<ProcessView>,
    pub schedulers: Seq<SchedulerView>,
    pub process_schedulers: Seq<ProcessSchedulerView>,
}

impl StoreView {
    /// The store with no record in it.
    pub open spec fn empty() -> StoreView {
        StoreView {
            messages: Seq::empty(),
            processes: Seq::empty(),
            schedulers: Seq::empty(),
            process_schedulers: Seq::empty(),
        }
    }

    /// Row ids count the rows from 1.
    pub open spec fn wf(self) -> bool {
        &&& forall|i: int|
            0 <= i < self.schedulers.len() ==> (#[trigger] self.schedulers[i]).row_id
                == row_id_at(i)
        &&& forall|i: int|
            0 <= i < self.process_schedulers.len() ==> (
            #[trigger] self.process_schedulers[i]).row_id == row_id_at(i)
    }

    /// The first message with id `message_id`.
    pub open spec fn message(self, message_id: Seq<char>) -> Option<MessageView> {
        match first_match(self.messages, |m: MessageView| m.message_id == message_id) {
            Some(i) => Some(self.messages[i]),
            None => None,
        }
    }

    /// The log of process `process_id`: its messages in the order in which
    /// they were saved.
    pub open spec fn messages_of(self, process_id: Seq<char>) -> Seq<MessageView> {
        matching(self.messages, |m: MessageView| m.process_id == process_id)
    }

    /// The message of process `process_id` that was saved last.
    pub open spec fn latest_message(self, process_id: Seq<char>) -> Option<MessageView> {
        match last_match(self.messages, |m: MessageView| m.process_id == process_id) {
            Some(i) => Some(self.messages[i]),
            None => None,
        }
    }

    /// The first process with id `process_id`.
    pub open spec fn process(self, process_id: Seq<char>) -> Option<ProcessView> {
        match first_match(self.processes, |p: ProcessView| p.process_id == process_id) {
            Some(i) => Some(self.processes[i]),
            None => None,
        }
    }

    /// The scheduler unit in row `row_id`.
    pub open spec fn scheduler(self, row_id: i32) -> Option<SchedulerView> {
        if 1 <= row_id <= self.schedulers.len() {
            Some(self.schedulers[row_id - 1])
        } else {
            None
        }
    }

    /// The first scheduler unit with address `url`.
    pub open spec fn scheduler_by_url(self, url: Seq<char>) -> Option<SchedulerView> {
        match first_match(self.schedulers, |s: SchedulerView| s.url == url) {
            Some(i) => Some(self.schedulers[i]),
            None => None,
        }
    }

    /// The first assignment of process `process_id`.
    pub open spec fn process_scheduler(self, process_id: Seq<char>) -> Option<
        ProcessSchedulerView,
    > {
        match first_match(
            self.process_schedulers,
            |a: ProcessSchedulerView| a.process_id == process_id,
        ) {
            Some(i) => Some(self.process_schedulers[i]),
            None => None,
        }
    }

    /// The store after `message` was saved.
    pub open spec fn with_message(self, message: MessageView) -> StoreView {
        StoreView { messages: self.messages.push(message), ..self }
    }

    /// The store after `process` was saved.
    pub open spec fn with_process(self, process: ProcessView) -> StoreView {
        StoreView { processes: self.processes.push(process), ..self }
    }

    /// Whether the table of scheduler units can take one more row.
    pub open spec fn has_room_for_scheduler(self) -> bool {
        self.schedulers.len() < i32::MAX
    }

    /// The store after `scheduler` was saved in a new row.
    pub open spec fn with_scheduler(self, scheduler: SchedulerView) -> StoreView {
        StoreView {
            schedulers: self.schedulers.push(
                SchedulerView { row_id: row_id_at(self.schedulers.len() as int), ..scheduler },
            ),
            ..self
        }
    }

    /// The store after the row that `scheduler` names was overwritten by it.
    pub open spec fn with_updated_scheduler(self, scheduler: SchedulerView) -> StoreView {
        StoreView {
            schedulers: self.schedulers.update(scheduler.row_id->0 - 1, scheduler),
            ..self
        }
    }

    /// Whether the table of assignments can take one more row.
    pub open spec fn has_room_for_process_scheduler(self) -> bool {
        self.process_schedulers.len() < i32::MAX
    }

    /// The store after `assignment` was saved in a new row.
    pub open spec fn with_process_scheduler(self, assignment: ProcessSchedulerView) -> StoreView {
        StoreView {
            process_schedulers: self.process_schedulers.push(
                ProcessSchedulerView {
                    row_id: row_id_at(self.process_schedulers.len() as int),
                    ..assignment
                },
            ),
            ..self
        }
    }
}

/// The views of the records in `records`, in order.
pub open spec fn message_views(records: Seq<Message>) -> Seq<MessageView> {
    Seq::new(records.len(), |i: int| records[i]@)
}

/// A row of the table of scheduler units; its row id is its position.
struct SchedulerRow {
    url: String,
    process_count: i32,
}

/// A row of the table of assignments; its row id is its position.
struct AssignmentRow {
    process_id: String,
    scheduler_row_id: i32,
}

/// A data store held in memory.
pub struct StoreClient {
    messages: Vec<Message>,
    processes: Vec<Process>,
    schedulers: Vec<SchedulerRow>,
    process_schedulers: Vec<AssignmentRow>,
}

/// The row id of the row at position `i`.
fn row_id_of(i: usize) -> (row_id: Option<i32>)
    ensures
        row_id == row_id_at(i as int),
{
    if i < i32::MAX as usize {
        Some((i + 1) as i32)
    } else {
        None
    }
}

impl View for StoreClient {
    type V = StoreView;

    closed spec fn view(&self) -> StoreView {
        StoreView {
            messages: message_views(self.messages@),
            processes: Seq::new(self.processes@.len(), |i: int| self.processes@[i]@),
            schedulers: Seq::new(
                self.schedulers@.len(),
                |i: int|
                    SchedulerView {
                        row_id: row_id_at(i),
                        url: self.schedulers@[i].url@,
                        process_count: self.schedulers@[i].process_count,
                    },
            ),
            process_schedulers: Seq::new(
                self.process_schedulers@.len(),
                |i: int|
                    ProcessSchedulerView {
                        row_id: row_id_at(i),
                        process_id: self.process_schedulers@[i].process_id@,
                        scheduler_row_id: self.process_schedulers@[i].scheduler_row_id,
                    },
            ),
        }
    }
}

impl StoreClient {
    /// A store with no record in it.
    pub fn new() -> (store: StoreClient)
        ensures
            store@ == StoreView::empty(),
            store@.wf(),
    {
        let store = StoreClient {
            messages: Vec::new(),
            processes: Vec::new(),
            schedulers: Vec::new(),
            process_schedulers: Vec::new(),
        };
        assert(store@.messages =~= Seq::empty());
        assert(store@.processes =~= Seq::empty());
        assert(store@.schedulers =~= Seq::empty());
        assert(store@.process_schedulers =~= Seq::empty());
        store
    }

    /// Appends `message` to the table of messages.
    pub fn save_message(&mut self, message: &Message) -> (saved: Result<(), StoreErrorType>)
        ensures
            saved is Ok,
            final(self)@ == old(self)@.with_message(message@),
            final(self)@.wf(),
    {
        self.messages.push(message.clone());
        assert(self@.messages =~= old(self)@.messages.push(message@));
        Ok(())
    }

    /// The first message with id `message_id`.
    pub fn get_message(&self, message_id: &String) -> (found: Result<Message, StoreErrorType>)
        ensures
            self@.wf(),
            match found {
                Ok(m) => self@.message(message_id@) == Some(m@),
                Err(e) => e == StoreErrorType::NotFound && self@.message(message_id@) is None,
            },
    {
        let ghost wanted = |m: MessageView| m.message_id == message_id@;
        let mut i: usize = 0;
        while i < self.messages.len()
            invariant
                i <= self.messages.len(),
                wanted == (|m: MessageView| m.message_id == message_id@),
                forall|k: int| 0 <= k < i ==> !#[trigger] wanted(self@.messages[k]),
            decreases self.messages.len() - i,
        {
            if self.messages[i].message_id == *message_id {
                proof {
                    lemma_first_match_at(self@.messages, wanted, i as int);
                }
                return Ok(self.messages[i].clone());
            }
            i += 1;
        }
        proof {
            lemma_first_match_none(self@.messages, wanted);
        }
        Err(StoreErrorType::NotFound)
    }

    /// The message of process `process_id` that was saved last, if it has any.
    pub fn get_latest_message(&self, process_id: &String) -> (found: Result<
        Option<Message>,
        StoreErrorType,
    >)
        ensures
            self@.wf(),
            match found {
                Ok(Some(m)) => self@.latest_message(process_id@) == Some(m@),
                Ok(None) => self@.latest_message(process_id@) is None,
                Err(_) => false,
            },
    {
        let ghost wanted = |m: MessageView| m.process_id == process_id@;
        let mut i: usize = self.messages.len();
        while i > 0
            invariant
                i <= self.messages.len(),
                wanted == (|m: MessageView| m.process_id == process_id@),
                forall|k: int|
                    i <= k < self.messages.len() ==> !#[trigger] wanted(self@.messages[k]),
            decreases i,
        {
            i -= 1;
            if self.messages[i].process_id == *process_id {
                proof {
                    assert(wanted(self@.messages[i as int]));
                    lemma_last_match(self@.messages, wanted);
                }
                return Ok(Some(self.messages[i].clone()));
            }
        }
        proof {
            lemma_last_match(self@.messages, wanted);
        }
        Ok(None)
    }

    /// The log of process `process_id`.
    pub fn get_messages(&self, process_id: &String) -> (found: Result<
        Vec<Message>,
        StoreErrorType,
    >)
        ensures
            self@.wf(),
            match found {
                Ok(log) => message_views(log@) == self@.messages_of(process_id@),
                Err(_) => false,
            },
    {
        let ghost wanted = |m: MessageView| m.process_id == process_id@;
        let mut log: Vec<Message> = Vec::new();
        let mut i: usize = 0;
        assert(self@.messages.take(0) =~= Seq::empty());
        while i < self.messages.len()
            invariant
                i <= self.messages.len(),
                wanted == (|m: MessageView| m.process_id == process_id@),
                message_views(log@) =~= matching(self@.messages.take(i as int), wanted),
            decreases self.messages.len() - i,
        {
            assert(self@.messages.take(i + 1).drop_last() =~= self@.messages.take(i as int));
            if self.messages[i].process_id == *process_id {
                log.push(self.messages[i].clone());
            }
            i += 1;
        }
        assert(self@.messages.take(i as int) =~= self@.messages);
        Ok(log)
    }

    /// Appends `process` to the table of processes.
    pub fn save_process(&mut self, process: &Process) -> (saved: Result<(), StoreErrorType>)
        ensures
            saved is Ok,
            final(self)@ == old(self)@.with_process(process@),
            final(self)@.wf(),
    {
        self.processes.push(process.clone());
        assert(self@.processes =~= old(self)@.processes.push(process@));
        Ok(())
    }

    /// The first process with id `process_id`.
    pub fn get_process(&self, process_id: &String) -> (found: Result<Process, StoreErrorType>)
        ensures
            self@.wf(),
            match found {
                Ok(p) => self@.process(process_id@) == Some(p@),
                Err(e) => e == StoreErrorType::NotFound && self@.process(process_id@) is None,
            },
    {
        let ghost wanted = |p: ProcessView| p.process_id == process_id@;
        let mut i: usize = 0;
        while i < self.processes.len()
            invariant
                i <= self.processes.len(),
                wanted == (|p: ProcessView| p.process_id == process_id@),
                forall|k: int| 0 <= k < i ==> !#[trigger] wanted(self@.processes[k]),
            decreases self.processes.len() - i,
        {
            if self.processes[i].process_id == *process_id {
                proof {
                    lemma_first_match_at(self@.processes, wanted, i as int);
                }
                return Ok(self.processes[i].clone());
            }
            i += 1;
        }
        proof {
            lemma_first_match_none(self@.processes, wanted);
        }
        Err(StoreErrorType::NotFound)
    }

    /// Saves `scheduler` in a new row.  The row id that `scheduler` carries is
    /// not read: the store gives the row its id.
    pub fn save_scheduler(&mut self, scheduler: &Scheduler) -> (saved: Result<(), StoreErrorType>)
        ensures
            final(self)@.wf(),
            match saved {
                Ok(_) => old(self)@.has_room_for_scheduler() && final(self)@ == old(
                    self,
                )@.with_scheduler(scheduler@),
                Err(e) => e == StoreErrorType::DatabaseError && !old(
                    self,
                )@.has_room_for_scheduler() && final(self)@ == old(self)@,
            },
    {
        if self.schedulers.len() >= i32::MAX as usize {
            return Err(StoreErrorType::DatabaseError);
        }
        let row = SchedulerRow {
            url: scheduler.url.clone(),
            process_count: scheduler.process_count,
        };
        self.schedulers.push(row);
        assert(self@.schedulers =~= old(self)@.with_scheduler(scheduler@).schedulers);
        Ok(())
    }

    /// The scheduler unit in row `row_id`.
    pub fn get_scheduler(&self, row_id: &i32) -> (found: Result<Scheduler, StoreErrorType>)
        ensures
            self@.wf(),
            match found {
                Ok(s) => self@.scheduler(*row_id) == Some(s@),
                Err(e) => e == StoreErrorType::NotFound && self@.scheduler(*row_id) is None,
            },
    {
        if *row_id < 1 || *row_id as usize > self.schedulers.len() {
            return Err(StoreErrorType::NotFound);
        }
        Ok(self.scheduler_at((*row_id - 1) as usize))
    }

    /// The record of the row at position `i`.
    fn scheduler_at(&self, i: usize) -> (record: Scheduler)
        requires
            i < self@.schedulers.len(),
        ensures
            record@ == self@.schedulers[i as int],
    {
        Scheduler {
            row_id: row_id_of(i),
            url: self.schedulers[i].url.clone(),
            process_count: self.schedulers[i].process_count,
        }
    }

    /// The first scheduler unit with address `url`.
    pub fn get_scheduler_by_url(&self, url: &String) -> (found: Result<Scheduler, StoreErrorType>)
        ensures
            self@.wf(),
            match found {
                Ok(s) => self@.scheduler_by_url(url@) == Some(s@),
                Err(e) => e == StoreErrorType::NotFound && self@.scheduler_by_url(url@) is None,
            },
    {
        let ghost wanted = |s: SchedulerView| s.url == url@;
        let mut i: usize = 0;
        while i < self.schedulers.len()
            invariant
                i <= self.schedulers.len(),
                wanted == (|s: SchedulerView| s.url == url@),
                forall|k: int| 0 <= k < i ==> !#[trigger] wanted(self@.schedulers[k]),
            decreases self.schedulers.len() - i,
        {
            if self.schedulers[i].url == *url {
                proof {
                    lemma_first_match_at(self@.schedulers, wanted, i as int);
                }
                return Ok(self.scheduler_at(i));
            }
            i += 1;
        }
        proof {
            lemma_first_match_none(self@.schedulers, wanted);
        }
        Err(StoreErrorType::NotFound)
    }

    /// Overwrites the row that `scheduler` names by its row id.
    pub fn update_scheduler(&mut self, scheduler: &Scheduler) -> (updated: Result<
        (),
        StoreErrorType,
    >)
        ensures
            final(self)@.wf(),
            match updated {
                Ok(_) => scheduler.row_id is Some && old(self)@.scheduler(scheduler.row_id->0)
                    is Some && final(self)@ == old(self)@.with_updated_scheduler(scheduler@),
                Err(e) => e == StoreErrorType::NotFound && (scheduler.row_id is None || old(
                    self,
                )@.scheduler(scheduler.row_id->0) is None) && final(self)@ == old(self)@,
            },
    {
        let row_id = match scheduler.row_id {
            Some(r) => r,
            None => {
                return Err(StoreErrorType::NotFound);
            },
        };
        if row_id < 1 || row_id as usize > self.schedulers.len() {
            return Err(StoreErrorType::NotFound);
        }
        let row = SchedulerRow {
            url: scheduler.url.clone(),
            process_count: scheduler.process_count,
        };
        self.schedulers.set((row_id - 1) as usize, row);
        assert(self@.schedulers =~= old(self)@.with_updated_scheduler(scheduler@).schedulers);
        Ok(())
    }

    /// Every scheduler unit, in row order.
    pub fn get_all_schedulers(&self) -> (found: Result<Vec<Scheduler>, StoreErrorType>)
        ensures
            self@.wf(),
            match found {
                Ok(all) => scheduler_views(all@) == self@.schedulers,
                Err(_) => false,
            },
    {
        let mut all: Vec<Scheduler> = Vec::new();
        let mut i: usize = 0;
        while i < self.schedulers.len()
            invariant
                i <= self.schedulers.len(),
                scheduler_views(all@) =~= self@.schedulers.take(i as int),
            decreases self.schedulers.len() - i,
        {
            let ghost before = scheduler_views(all@);
            let record = self.scheduler_at(i);
            all.push(record);
            assert(scheduler_views(all@) =~= before.push(self@.schedulers[i as int]));
            i += 1;
        }
        assert(self@.schedulers.take(i as int) =~= self@.schedulers);
        Ok(all)
    }

    /// Saves `assignment` in a new row.  The row id that `assignment` carries
    /// is not read: the store gives the row its id.
    pub fn save_process_scheduler(&mut self, assignment: &ProcessScheduler) -> (saved: Result<
        (),
        StoreErrorType,
    >)
        ensures
            final(self)@.wf(),
            match saved {
                Ok(_) => old(self)@.has_room_for_process_scheduler() && final(self)@ == old(
                    self,
                )@.with_process_scheduler(assignment@),
                Err(e) => e == StoreErrorType::DatabaseError && !old(
                    self,
                )@.has_room_for_process_scheduler() && final(self)@ == old(self)@,
            },
    {
        if self.process_schedulers.len() >= i32::MAX as usize {
            return Err(StoreErrorType::DatabaseError);
        }
        let row = AssignmentRow {
            process_id: assignment.process_id.clone(),
            scheduler_row_id: assignment.scheduler_row_id,
        };
        self.process_schedulers.push(row);
        assert(self@.process_schedulers =~= old(self)@.with_process_scheduler(
            assignment@,
        ).process_schedulers);
        Ok(())
    }

    /// The first assignment of process `process_id`.
    pub fn get_process_scheduler(&self, process_id: &String) -> (found: Result<
        ProcessScheduler,
        StoreErrorType,
    >)
        ensures
            self@.wf(),
            match found {
                Ok(a) => self@.process_scheduler(process_id@) == Some(a@),
                Err(e) => e == StoreErrorType::NotFound && self@.process_scheduler(process_id@)
                    is None,
            },
    {
        let ghost wanted = |a: ProcessSchedulerView| a.process_id == process_id@;
        let mut i: usize = 0;
        while i < self.process_schedulers.len()
            invariant
                i <= self.process_schedulers.len(),
                wanted == (|a: ProcessSchedulerView| a.process_id == process_id@),
                forall|k: int| 0 <= k < i ==> !#[trigger] wanted(self@.process_schedulers[k]),
            decreases self.process_schedulers.len() - i,
        {
            if self.process_schedulers[i].process_id == *process_id {
                proof {
                    lemma_first_match_at(self@.process_schedulers, wanted, i as int);
                }
                return Ok(
                    ProcessScheduler {
                        row_id: row_id_of(i),
                        process_id: self.process_schedulers[i].process_id.clone(),
                        scheduler_row_id: self.process_schedulers[i].scheduler_row_id,
                    },
                );
            }
            i += 1;
        }
        proof {
            lemma_first_match_none(self@.process_schedulers, wanted);
        }
        Err(StoreErrorType::NotFound)
    }
}

} // verus!

//! What the unit does with an incoming request: where to send the caller,
//! what to write, what to answer.

use crate::bundle::{has_tag, tag_value, DataItem, DataItemView, TagView};
use crate::clock::{is_millis_text, system_time, ClockError};
use crate::config::Config;
use crate::json::{Message, MessageView, Process, ProcessView};
use crate::response::{health_answer, health_response, timestamp_answer, timestamp_response};
use crate::router::{assign_process, assigned, AssignError, Scheduler, SchedulerView};
use crate::scheduler::{ScheduleInfo, ScheduleInfoView};
use crate::store::{message_views, StoreClient, StoreErrorType, StoreView};
use vstd::prelude::*;

verus! {

/// What the flows work with.
pub struct Deps {
    pub data_store: StoreClient,
    pub config: Config,
}

/// Why a flow gave no answer.
#[derive(Clone, Copy, Debug, PartialEq, Eq, Structural)]
pub enum FlowError {
    /// A redirect by process id was asked for without a process id.
    MissingProcessId,
    /// The id is that of no assigned process, and no process id came with it
    /// that is.
    ProcessHintRequired,
    /// The item has no `Type` tag, or one that is neither `Process` nor
    /// `Message`.
    InvalidTypeTag,
    /// The item would create the deployment's own process again.
    ReservedProcessId,
    /// No scheduler unit can take a new process.
    NoSchedulers,
    /// The least loaded scheduler unit has no row id.
    MissingSchedulerId,
    /// The item has no `Data-Protocol` tag.
    MissingProtocolTag,
    /// The item has no `Type` tag.
    MissingTypeTag,
    /// The item's `Type` tag is neither `Process` nor `Message`.
    InvalidTypeValue,
    /// The item is a process without a `Module` or without a `Scheduler` tag.
    MissingProcessTags,
    /// The id is that of no message and of no process.
    MessageOrProcessNotFound,
    /// The store gave an error.
    Store(StoreErrorType),
    /// The clock gave no time.
    Clock(ClockError),
}

/// The kinds of failure that a caller tells apart.
#[derive(Clone, Copy, Debug, PartialEq, Eq, Structural)]
pub enum ErrorKind {
    NotFound,
    ValidationError,
    Ambiguous,
    Exhausted,
    StoreError,
    ClockError,
}

impl FlowError {
    /// The kind of the failure.
    pub open spec fn spec_kind(self) -> ErrorKind {
        match self {
            FlowError::MissingProcessId => ErrorKind::ValidationError,
            FlowError::ProcessHintRequired => ErrorKind::Ambiguous,
            FlowError::InvalidTypeTag => ErrorKind::ValidationError,
            FlowError::ReservedProcessId => ErrorKind::ValidationError,
            FlowError::NoSchedulers => ErrorKind::Exhausted,
            FlowError::MissingSchedulerId => ErrorKind::StoreError,
            FlowError::MissingProtocolTag => ErrorKind::ValidationError,
            FlowError::MissingTypeTag => ErrorKind::ValidationError,
            FlowError::InvalidTypeValue => ErrorKind::ValidationError,
            FlowError::MissingProcessTags => ErrorKind::ValidationError,
            FlowError::MessageOrProcessNotFound => ErrorKind::NotFound,
            FlowError::Store(StoreErrorType::NotFound) => ErrorKind::NotFound,
            FlowError::Store(StoreErrorType::DatabaseError) => ErrorKind::StoreError,
            FlowError::Clock(_) => ErrorKind::ClockError,
        }
    }

    /// The failure in words.
    pub open spec fn spec_message(self) -> Seq<char> {
        match self {
            FlowError::MissingProcessId => "No process-id query parameter provided"@,
            FlowError::ProcessHintRequired =>
                "Unable to locate process, if this is a message id query \
                 be sure to pass the process-id query parameter"@,
            FlowError::InvalidTypeTag => "Cannot redirect data item, invalid Type Tag"@,
            FlowError::ReservedProcessId => "Cannot recreate the ao staking process"@,
            FlowError::NoSchedulers => "Could not balance schedulers"@,
            FlowError::MissingSchedulerId => "Missing id on scheduler"@,
            FlowError::MissingProtocolTag => "Data-Protocol tag not present"@,
            FlowError::MissingTypeTag => "Type tag not present"@,
            FlowError::InvalidTypeValue => "Type tag has an invalid value"@,
            FlowError::MissingProcessTags =>
                "Required Module and Scheduler tags for Process type not present"@,
            FlowError::MessageOrProcessNotFound => "Message or Process not found"@,
            FlowError::Store(StoreErrorType::NotFound) => "Record not found"@,
            FlowError::Store(StoreErrorType::DatabaseError) => "Table is full"@,
            FlowError::Clock(ClockError::BeforeEpoch) => "System clock is before the Unix epoch"@,
            FlowError::Clock(ClockError::OutOfRange) => "System time is out of range"@,
        }
    }

    /// The failure in words.
    pub fn message(self) -> (text: String)
        ensures
            text@ == self.spec_message(),
    {
        let words = match self {
            FlowError::MissingProcessId => "No process-id query parameter provided",
            FlowError::ProcessHintRequired =>
                "Unable to locate process, if this is a message id query \
                 be sure to pass the process-id query parameter",
            FlowError::InvalidTypeTag => "Cannot redirect data item, invalid Type Tag",
            FlowError::ReservedProcessId => "Cannot recreate the ao staking process",
            FlowError::NoSchedulers => "Could not balance schedulers",
            FlowError::MissingSchedulerId => "Missing id on scheduler",
            FlowError::MissingProtocolTag => "Data-Protocol tag not present",
            FlowError::MissingTypeTag => "Type tag not present",
            FlowError::InvalidTypeValue => "Type tag has an invalid value",
            FlowError::MissingProcessTags =>
                "Required Module and Scheduler tags for Process type not present",
            FlowError::MessageOrProcessNotFound => "Message or Process not found",
            FlowError::Store(StoreErrorType::NotFound) => "Record not found",
            FlowError::Store(StoreErrorType::DatabaseError) => "Table is full",
            FlowError::Clock(ClockError::BeforeEpoch) => "System clock is before the Unix epoch",
            FlowError::Clock(ClockError::OutOfRange) => "System time is out of range",
        };
        words.to_owned()
    }

    /// The kind of the failure.
    #[verifier::when_used_as_spec(spec_kind)]
    pub fn kind(self) -> (kind: ErrorKind)
        ensures
            kind == self.spec_kind(),
    {
        match self {
            FlowError::MissingProcessId => ErrorKind::ValidationError,
            FlowError::ProcessHintRequired => ErrorKind::Ambiguous,
            FlowError::InvalidTypeTag => ErrorKind::ValidationError,
            FlowError::ReservedProcessId => ErrorKind::ValidationError,
            FlowError::NoSchedulers => ErrorKind::Exhausted,
            FlowError::MissingSchedulerId => ErrorKind::StoreError,
            FlowError::MissingProtocolTag => ErrorKind::ValidationError,
            FlowError::MissingTypeTag => ErrorKind::ValidationError,
            FlowError::InvalidTypeValue => ErrorKind::ValidationError,
            FlowError::MissingProcessTags => ErrorKind::ValidationError,
            FlowError::MessageOrProcessNotFound => ErrorKind::NotFound,
            FlowError::Store(StoreErrorType::NotFound) => ErrorKind::NotFound,
            FlowError::Store(StoreErrorType::DatabaseError) => ErrorKind::StoreError,
            FlowError::Clock(_) => ErrorKind::ClockError,
        }
    }
}

/// Where to send the caller: `None` where the unit handles the request
/// itself, else the address of the unit that does.
pub type Redirect = Result<Option<Seq<char>>, FlowError>;

/// What an answer of a redirect flow holds.
pub open spec fn redirect_of(answer: Result<Option<String>, FlowError>) -> Redirect {
    match answer {
        Ok(Some(url)) => Ok(Some(url@)),
        Ok(None) => Ok(None),
        Err(e) => Err(e),
    }
}

/// What an optional string holds.
pub open spec fn hint_of(hint: Option<String>) -> Option<Seq<char>> {
    match hint {
        Some(p) => Some(p@),
        None => None,
    }
}

/// The address of the scheduler unit that process `process_id` is assigned
/// to.
pub open spec fn assigned_url(s: StoreView, process_id: Seq<char>) -> Result<
    Seq<char>,
    StoreErrorType,
> {
    match s.process_scheduler(process_id) {
        None => Err(StoreErrorType::NotFound),
        Some(a) => match s.scheduler(a.scheduler_row_id) {
            None => Err(StoreErrorType::NotFound),
            Some(unit) => Ok(unit.url),
        },
    }
}

/// Where a request for process `process_id` goes.
///
/// A unit that is no router handles everything itself.  A router handles the
/// deployment's own process itself and sends every other process to the unit
/// that it is assigned to; a process without assignment is not found.
pub open spec fn process_id_redirect(
    config: Config,
    s: StoreView,
    process_id: Option<Seq<char>>,
) -> Redirect {
    if !config.is_router() {
        Ok(None)
    } else {
        match process_id {
            None => Err(FlowError::MissingProcessId),
            Some(pid) => if pid == config.ao_process_id@ {
                Ok(None)
            } else {
                match assigned_url(s, pid) {
                    Ok(url) => Ok(Some(url)),
                    Err(e) => Err(FlowError::Store(e)),
                }
            },
        }
    }
}

/// Where a request for the message or process `tx_id` goes.
///
/// A router takes `tx_id` for a process id where a process of that id is
/// assigned, and else the process id that came with the request.
pub open spec fn tx_id_redirect(
    config: Config,
    s: StoreView,
    tx_id: Seq<char>,
    process_id: Option<Seq<char>>,
) -> Redirect {
    if !config.is_router() {
        Ok(None)
    } else if tx_id == config.ao_process_id@ {
        Ok(None)
    } else {
        let process_to_query = if s.process_scheduler(tx_id) is None {
            process_id
        } else {
            Some(tx_id)
        };
        match process_to_query {
            None => Err(FlowError::ProcessHintRequired),
            Some(pid) => match s.process_scheduler(pid) {
                None => Err(FlowError::ProcessHintRequired),
                Some(a) => match s.scheduler(a.scheduler_row_id) {
                    None => Err(FlowError::Store(StoreErrorType::NotFound)),
                    Some(unit) => Ok(Some(unit.url)),
                },
            },
        }
    }
}

/// Where a new process with id `process_id` goes, and what the store holds
/// afterwards.
///
/// The process is assigned to the least loaded unit.  The assignment is
/// saved first, then the unit with the process counted in.
pub open spec fn new_process_redirect(s: StoreView, process_id: Seq<char>) -> (
    Redirect,
    StoreView,
) {
    match assigned(s.schedulers, process_id) {
        Err(AssignError::NoSchedulers) => (Err(FlowError::NoSchedulers), s),
        Err(AssignError::MissingSchedulerId) => (Err(FlowError::MissingSchedulerId), s),
        Ok((assignment, unit)) => if !s.has_room_for_process_scheduler() {
            (Err(FlowError::Store(StoreErrorType::DatabaseError)), s)
        } else {
            let saved = s.with_process_scheduler(assignment);
            if saved.scheduler(unit.row_id->0) is None {
                (Err(FlowError::Store(StoreErrorType::NotFound)), saved)
            } else {
                (Ok(Some(unit.url)), saved.with_updated_scheduler(unit))
            }
        },
    }
}

/// Where the data item `item` goes, and what the store holds afterwards.
///
/// A router assigns a new process, unless it has the id of the deployment's
/// own process, which cannot be created again.  It handles a message to the
/// deployment's own process itself and sends every other message to the unit
/// that its target is assigned to.
pub open spec fn data_item_redirect(config: Config, s: StoreView, item: DataItemView) -> (
    Redirect,
    StoreView,
) {
    if !config.is_router() {
        (Ok(None), s)
    } else {
        match tag_value(item.tags, "Type"@) {
            None => (Err(FlowError::InvalidTypeTag), s),
            Some(kind) => if kind == "Process"@ {
                if item.id == config.ao_process_id@ {
                    (Err(FlowError::ReservedProcessId), s)
                } else {
                    new_process_redirect(s, item.id)
                }
            } else if kind == "Message"@ {
                if item.target == config.ao_process_id@ {
                    (Ok(None), s)
                } else {
                    match assigned_url(s, item.target) {
                        Ok(url) => (Ok(Some(url)), s),
                        Err(e) => (Err(FlowError::Store(e)), s),
                    }
                }
            } else {
                (Err(FlowError::InvalidTypeTag), s)
            },
        }
    }
}

/// The address of the scheduler unit that process `process_id` is assigned
/// to.
pub fn scheduler_url(store: &StoreClient, process_id: &String) -> (url: Result<
    String,
    StoreErrorType,
>)
    ensures
        store@.wf(),
        match url {
            Ok(u) => assigned_url(store@, process_id@) == Ok::<Seq<char>, StoreErrorType>(u@),
            Err(e) => assigned_url(store@, process_id@) == Err::<Seq<char>, StoreErrorType>(e),
        },
{
    let process_scheduler = store.get_process_scheduler(process_id)?;
    let scheduler = store.get_scheduler(&process_scheduler.scheduler_row_id)?;
    Ok(scheduler.url)
}

/// Tells where a request for process `process_id` goes.
pub fn redirect_process_id(deps: &Deps, process_id: Option<String>) -> (redirect: Result<
    Option<String>,
    FlowError,
>)
    ensures
        redirect_of(redirect) == process_id_redirect(
            deps.config,
            deps.data_store@,
            hint_of(process_id),
        ),
{
    if !deps.config.router_mode() {
        return Ok(None);
    }
    let pid = match process_id {
        Some(p) => p,
        None => {
            return Err(FlowError::MissingProcessId);
        },
    };
    if pid == deps.config.ao_process_id {
        return Ok(None);
    }
    match scheduler_url(&deps.data_store, &pid) {
        Ok(url) => Ok(Some(url)),
        Err(e) => Err(FlowError::Store(e)),
    }
}

/// Tells where a request for the message or process `tx_id` goes.
pub fn redirect_tx_id(deps: &Deps, tx_id: String, process_id: Option<String>) -> (redirect: Result<
    Option<String>,
    FlowError,
>)
    ensures
        redirect_of(redirect) == tx_id_redirect(
            deps.config,
            deps.data_store@,
            tx_id@,
            hint_of(process_id),
        ),
{
    if !deps.config.router_mode() {
        return Ok(None);
    }
    if tx_id == deps.config.ao_process_id {
        return Ok(None);
    }
    let process_to_query = match deps.data_store.get_process_scheduler(&tx_id) {
        Err(_) => match process_id {
            Some(p) => p,
            None => {
                return Err(FlowError::ProcessHintRequired);
            },
        },
        Ok(_) => tx_id,
    };
    match deps.data_store.get_process_scheduler(&process_to_query) {
        Ok(process_scheduler) => {
            match deps.data_store.get_scheduler(&process_scheduler.scheduler_row_id) {
                Ok(scheduler) => Ok(Some(scheduler.url)),
                Err(e) => Err(FlowError::Store(e)),
            }
        },
        Err(_) => Err(FlowError::ProcessHintRequired),
    }
}

/// Assigns the new process `process_id` to the least loaded unit and tells
/// its address.
pub fn redirect_new_process(store: &mut StoreClient, process_id: &String) -> (redirect: Result<
    Option<String>,
    FlowError,
>)
    ensures
        (redirect_of(redirect), final(store)@) == new_process_redirect(old(store)@, process_id@),
{
    let schedulers = match store.get_all_schedulers() {
        Ok(all) => all,
        Err(e) => {
            return Err(FlowError::Store(e));
        },
    };
    let assignment = match assign_process(&schedulers, process_id) {
        Ok(a) => a,
        Err(AssignError::NoSchedulers) => {
            return Err(FlowError::NoSchedulers);
        },
        Err(AssignError::MissingSchedulerId) => {
            return Err(FlowError::MissingSchedulerId);
        },
    };
    match store.save_process_scheduler(&assignment.process_scheduler) {
        Ok(_) => {},
        Err(e) => {
            return Err(FlowError::Store(e));
        },
    }
    match store.update_scheduler(&assignment.scheduler) {
        Ok(_) => {},
        Err(e) => {
            return Err(FlowError::Store(e));
        },
    }
    Ok(Some(assignment.scheduler.url))
}

/// Tells where the data item `item` goes, and assigns the process that it
/// creates.
pub fn redirect_data_item(deps: &mut Deps, item: &DataItem) -> (redirect: Result<
    Option<String>,
    FlowError,
>)
    ensures
        final(deps).config == old(deps).config,
        (redirect_of(redirect), final(deps).data_store@) == data_item_redirect(
            old(deps).config,
            old(deps).data_store@,
            item@,
        ),
{
    if !deps.config.router_mode() {
        return Ok(None);
    }
    let type_tag_value = match item.tag_value("Type") {
        Some(v) => v,
        None => {
            return Err(FlowError::InvalidTypeTag);
        },
    };
    let process_word = "Process".to_owned();
    let message_word = "Message".to_owned();
    if type_tag_value == process_word {
        if item.id == deps.config.ao_process_id {
            return Err(FlowError::ReservedProcessId);
        }
        redirect_new_process(&mut deps.data_store, &item.id)
    } else if type_tag_value == message_word {
        if item.target == deps.config.ao_process_id {
            return Ok(None);
        }
        match scheduler_url(&deps.data_store, &item.target) {
            Ok(url) => Ok(Some(url)),
            Err(e) => Err(FlowError::Store(e)),
        }
    } else {
        Err(FlowError::InvalidTypeTag)
    }
}

/// A scheduler unit that the deployment is told of at startup.
#[derive(Debug, PartialEq, Eq)]
pub struct SchedulerEntry {
    pub url: String,
}

/// The addresses of the units in `entries`, in order.
pub open spec fn entry_urls(entries: Seq<SchedulerEntry>) -> Seq<Seq<char>> {
    Seq::new(entries.len(), |i: int| entries[i].url@)
}

/// The store after the unit at `url` was made known to it, and the failure
/// that stopped this, if any.  A unit that the store knows is left as it is;
/// one that it does not know is saved with no process assigned.
pub open spec fn reconciled_one(s: StoreView, url: Seq<char>) -> (StoreView, Option<FlowError>) {
    if s.scheduler_by_url(url) is Some {
        (s, None)
    } else if !s.has_room_for_scheduler() {
        (s, Some(FlowError::Store(StoreErrorType::DatabaseError)))
    } else {
        (s.with_scheduler(SchedulerView { row_id: None, url, process_count: 0 }), None)
    }
}

/// The store after the units at `urls` were made known to it one after the
/// other, and the failure that stopped this, if any.  What was saved before a
/// failure stays.
pub open spec fn reconciled(s: StoreView, urls: Seq<Seq<char>>) -> (StoreView, Option<FlowError>)
    decreases urls.len(),
{
    if urls.len() == 0 {
        (s, None)
    } else {
        let (before, failure) = reconciled(s, urls.drop_last());
        if failure is Some {
            (before, failure)
        } else {
            reconciled_one(before, urls.last())
        }
    }
}

/// Makes the units in `urls` known to the store: saves each that the store
/// does not know yet, with no process assigned.
pub fn init_schedulers(deps: &mut Deps, urls: &Vec<SchedulerEntry>) -> (done: Result<
    String,
    FlowError,
>)
    ensures
        final(deps).config == old(deps).config,
        match done {
            Ok(text) => text@ == "schedulers initialized"@ && reconciled(
                old(deps).data_store@,
                entry_urls(urls@),
            ) == (final(deps).data_store@, None::<FlowError>),
            Err(e) => reconciled(old(deps).data_store@, entry_urls(urls@)) == (
                final(deps).data_store@,
                Some(e),
            ),
        },
{
    let ghost all = entry_urls(urls@);
    let mut i: usize = 0;
    while i < urls.len()
        invariant
            i <= urls.len(),
            all == entry_urls(urls@),
            deps.config == old(deps).config,
            reconciled(old(deps).data_store@, all.take(i as int)) == (
                deps.data_store@,
                None::<FlowError>,
            ),
        decreases urls.len() - i,
    {
        assert(all.take(i + 1).drop_last() =~= all.take(i as int));
        assert(all.take(i + 1).last() == urls[i as int].url@);
        match deps.data_store.get_scheduler_by_url(&urls[i].url) {
            Err(StoreErrorType::NotFound) => {
                let scheduler = Scheduler {
                    row_id: None,
                    url: urls[i].url.clone(),
                    process_count: 0,
                };
                match deps.data_store.save_scheduler(&scheduler) {
                    Ok(_) => {},
                    Err(e) => {
                        proof {
                            lemma_reconciled_stops(
                                old(deps).data_store@,
                                all,
                                i as int + 1,
                            );
                        }
                        return Err(FlowError::Store(e));
                    },
                }
            },
            Err(e) => {
                proof {
                    lemma_reconciled_stops(old(deps).data_store@, all, i as int + 1);
                }
                return Err(FlowError::Store(e));
            },
            Ok(_) => {},
        }
        i += 1;
    }
    assert(all.take(i as int) =~= all);
    Ok("schedulers initialized".to_owned())
}

/// Once making units known has failed, the units after the failure change
/// nothing.
pub proof fn lemma_reconciled_stops(s: StoreView, urls: Seq<Seq<char>>, n: int)
    requires
        0 <= n <= urls.len(),
        reconciled(s, urls.take(n)).1 is Some,
    ensures
        reconciled(s, urls) == reconciled(s, urls.take(n)),
    decreases urls.len() - n,
{
    if n < urls.len() {
        assert(urls.take(n + 1).drop_last() =~= urls.take(n));
        lemma_reconciled_stops(s, urls, n + 1);
    } else {
        assert(urls.take(n) =~= urls);
    }
}

/// What an item is, by its tags.
#[derive(Clone, Copy, Debug, PartialEq, Eq, Structural)]
pub enum ItemKind {
    Message,
    Process,
}

/// What the item with tags `tags` is.
///
/// An item names its protocol in a `Data-Protocol` tag and its kind in a
/// `Type` tag, which says `Message` or `Process`.  A process also names its
/// module and its scheduler, in a `Module` and a `Scheduler` tag.
pub open spec fn item_kind(tags: Seq<TagView>) -> Result<ItemKind, FlowError> {
    if !has_tag(tags, "Data-Protocol"@) {
        Err(FlowError::MissingProtocolTag)
    } else {
        match tag_value(tags, "Type"@) {
            None => Err(FlowError::MissingTypeTag),
            Some(kind) => if kind == "Process"@ {
                if has_tag(tags, "Module"@) && has_tag(tags, "Scheduler"@) {
                    Ok(ItemKind::Process)
                } else {
                    Err(FlowError::MissingProcessTags)
                }
            } else if kind == "Message"@ {
                Ok(ItemKind::Message)
            } else {
                Err(FlowError::InvalidTypeValue)
            },
        }
    }
}

/// Tells what `item` is, by its tags.
pub fn classify_item(item: &DataItem) -> (kind: Result<ItemKind, FlowError>)
    ensures
        kind == item_kind(item@.tags),
{
    if !item.has_tag("Data-Protocol") {
        return Err(FlowError::MissingProtocolTag);
    }
    let type_tag_value = match item.tag_value("Type") {
        Some(v) => v,
        None => {
            return Err(FlowError::MissingTypeTag);
        },
    };
    let process_word = "Process".to_owned();
    let message_word = "Message".to_owned();
    if type_tag_value == process_word {
        if item.has_tag("Module") && item.has_tag("Scheduler") {
            Ok(ItemKind::Process)
        } else {
            Err(FlowError::MissingProcessTags)
        }
    } else if type_tag_value == message_word {
        Ok(ItemKind::Message)
    } else {
        Err(FlowError::InvalidTypeValue)
    }
}

/// The message that `item` is, at the position `schedule`.
pub open spec fn message_record(item: DataItemView, schedule: ScheduleInfoView) -> MessageView {
    MessageView {
        message_id: item.id,
        process_id: item.target,
        epoch: schedule.epoch,
        nonce: schedule.nonce,
        timestamp: schedule.timestamp,
        hash_chain: schedule.hash_chain,
    }
}

/// The process that `item` creates, at the time of `schedule`.
pub open spec fn process_record(item: DataItemView, schedule: ScheduleInfoView) -> ProcessView {
    ProcessView { process_id: item.id, timestamp: schedule.timestamp }
}

/// The store after `item` was written at the position `schedule`.
pub open spec fn written(s: StoreView, item: DataItemView, schedule: ScheduleInfoView) -> Result<
    StoreView,
    FlowError,
> {
    match item_kind(item.tags) {
        Err(e) => Err(e),
        Ok(ItemKind::Process) => Ok(s.with_process(process_record(item, schedule))),
        Ok(ItemKind::Message) => Ok(s.with_message(message_record(item, schedule))),
    }
}

/// Writes `item`, which was built at the position `schedule` and uploaded
/// with the answer `uploaded`: saves the process or the message that it is,
/// and hands the answer on.
pub fn write_item(
    deps: &mut Deps,
    item: &DataItem,
    schedule: &ScheduleInfo,
    uploaded: String,
) -> (answer: Result<String, FlowError>)
    ensures
        final(deps).config == old(deps).config,
        match answer {
            Ok(text) => text@ == uploaded@ && written(old(deps).data_store@, item@, schedule@)
                == Ok::<StoreView, FlowError>(final(deps).data_store@),
            Err(e) => written(old(deps).data_store@, item@, schedule@) == Err::<
                StoreView,
                FlowError,
            >(e) && final(deps).data_store@ == old(deps).data_store@,
        },
{
    match classify_item(item)? {
        ItemKind::Process => {
            let process = Process { process_id: item.id.clone(), timestamp: schedule.timestamp };
            match deps.data_store.save_process(&process) {
                Ok(_) => {},
                Err(e) => {
                    return Err(FlowError::Store(e));
                },
            }
        },
        ItemKind::Message => {
            let message = Message {
                message_id: item.id.clone(),
                process_id: item.target.clone(),
                epoch: schedule.epoch,
                nonce: schedule.nonce,
                timestamp: schedule.timestamp,
                hash_chain: schedule.hash_chain.clone(),
            };
            match deps.data_store.save_message(&message) {
                Ok(_) => {},
                Err(e) => {
                    return Err(FlowError::Store(e));
                },
            }
        },
    }
    Ok(uploaded)
}

/// What a request for `tx_id` is answered with.
#[derive(Debug, PartialEq, Eq)]
pub enum ReadOutcome {
    /// The message with that id.
    Message(Message),
    /// The log of the process with that id.
    Messages(Vec<Message>),
}

/// What a `ReadOutcome` holds.
pub enum ReadOutcomeView {
    Message(MessageView),
    Messages(Seq<MessageView>),
}

impl View for ReadOutcome {
    type V = ReadOutcomeView;

    open spec fn view(&self) -> ReadOutcomeView {
        match self {
            ReadOutcome::Message(m) => ReadOutcomeView::Message(m@),
            ReadOutcome::Messages(log) => ReadOutcomeView::Messages(message_views(log@)),
        }
    }
}

/// What a request for `tx_id` is answered with: the message of that id, or
/// else the log of the process of that id.
pub open spec fn message_data(s: StoreView, tx_id: Seq<char>) -> Result<
    ReadOutcomeView,
    FlowError,
> {
    match s.message(tx_id) {
        Some(m) => Ok(ReadOutcomeView::Message(m)),
        None => match s.process(tx_id) {
            Some(_) => Ok(ReadOutcomeView::Messages(s.messages_of(tx_id))),
            None => Err(FlowError::MessageOrProcessNotFound),
        },
    }
}

/// Answers a request for the message or the process `tx_id`.
pub fn read_message_data(deps: &Deps, tx_id: String) -> (answer: Result<ReadOutcome, FlowError>)
    ensures
        match answer {
            Ok(outcome) => message_data(deps.data_store@, tx_id@) == Ok::<
                ReadOutcomeView,
                FlowError,
            >(outcome@),
            Err(e) => message_data(deps.data_store@, tx_id@) == Err::<ReadOutcomeView, FlowError>(
                e,
            ),
        },
{
    match deps.data_store.get_message(&tx_id) {
        Ok(message) => {
            return Ok(ReadOutcome::Message(message));
        },
        Err(_) => {},
    }
    match deps.data_store.get_process(&tx_id) {
        Ok(_) => {
            match deps.data_store.get_messages(&tx_id) {
                Ok(messages) => Ok(ReadOutcome::Messages(messages)),
                Err(e) => Err(FlowError::Store(e)),
            }
        },
        Err(_) => Err(FlowError::MessageOrProcessNotFound),
    }
}

/// Answers a request for the process `process_id`.
pub fn read_process(deps: &Deps, process_id: String) -> (answer: Result<Process, FlowError>)
    ensures
        match answer {
            Ok(process) => deps.data_store@.process(process_id@) == Some(process@),
            Err(e) => e == FlowError::Store(StoreErrorType::NotFound) && deps.data_store@.process(
                process_id@,
            ) is None,
        },
{
    match deps.data_store.get_process(&process_id) {
        Ok(process) => Ok(process),
        Err(e) => Err(FlowError::Store(e)),
    }
}

/// Reads the clock and answers the question after the time, where `height`
/// is the height of the newest block.  Whatever the clock says, the answer
/// holds a count of milliseconds and the height.
pub fn timestamp(height: u128) -> (answer: Result<String, FlowError>)
    ensures
        match answer {
            Ok(text) => exists|stamp: Seq<char>|
                is_millis_text(stamp) && text@ == #[trigger] timestamp_answer(stamp, height),
            Err(e) => e == FlowError::Clock(ClockError::BeforeEpoch),
        },
{
    match system_time() {
        Ok(stamp) => {
            let text = timestamp_response(stamp.as_str(), height);
            assert(text@ == timestamp_answer(stamp@, height));
            Ok(text)
        },
        Err(e) => Err(FlowError::Clock(e)),
    }
}

/// Reads the clock and answers the question after the unit's health, where
/// `wallet_address` is the address of the unit's wallet.  Whatever the clock
/// says, the answer holds a count of milliseconds and the address.
pub fn health(wallet_address: &str) -> (answer: Result<String, FlowError>)
    ensures
        match answer {
            Ok(text) => exists|stamp: Seq<char>|
                is_millis_text(stamp) && text@ == #[trigger] health_answer(
                    stamp,
                    wallet_address@,
                ),
            Err(e) => e == FlowError::Clock(ClockError::BeforeEpoch),
        },
{
    match system_time() {
        Ok(stamp) => {
            let text = health_response(stamp.as_str(), wallet_address);
            assert(text@ == health_answer(stamp@, wallet_address@));
            Ok(text)
        },
        Err(e) => Err(FlowError::Clock(e)),
    }
}

} // verus!

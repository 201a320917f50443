//! The sequencer: the next position in a process's log.

use crate::clock::{read_millis, ClockError};
use crate::config::Config;
use crate::hash_chain::{gen_hash_chain, hash_chain_link};
use crate::json::{Message, MessageView};
use crate::store::{StoreClient, StoreErrorType};
use crate::text::{signed_decimal_string, signed_decimal_text};
use dashmap::DashMap;
use std::collections::hash_map::RandomState;
use vstd::prelude::*;

verus! {

/// What the sequencer works with.
pub struct SchedulerDeps {
    pub data_store: StoreClient,
    pub config: Config,
}

/// The position of an item in a process's log, and the time at which it was
/// given.
#[derive(Debug, PartialEq, Eq)]
pub struct ScheduleInfo {
    pub epoch: i32,
    pub nonce: i32,
    pub timestamp: i64,
    pub hash_chain: String,
}

/// What a `ScheduleInfo` holds.
pub struct ScheduleInfoView {
    pub epoch: i32,
    pub nonce: i32,
    pub timestamp: i64,
    pub hash_chain: Seq<char>,
}

impl View for ScheduleInfo {
    type V = ScheduleInfoView;

    open spec fn view(&self) -> ScheduleInfoView {
        ScheduleInfoView {
            epoch: self.epoch,
            nonce: self.nonce,
            timestamp: self.timestamp,
            hash_chain: self.hash_chain@,
        }
    }
}

impl Clone for ScheduleInfo {
    fn clone(&self) -> (copy: Self)
        ensures
            copy == *self,
    {
        ScheduleInfo {
            epoch: self.epoch,
            nonce: self.nonce,
            timestamp: self.timestamp,
            hash_chain: self.hash_chain.clone(),
        }
    }
}

impl ScheduleInfoView {
    /// The entry that a process has before anything was scheduled for it.
    pub open spec fn initial() -> ScheduleInfoView {
        ScheduleInfoView { epoch: 0, nonce: 0, timestamp: 0, hash_chain: Seq::empty() }
    }
}

impl ScheduleInfo {
    /// The entry that a process has before anything was scheduled for it.
    pub fn initial() -> (info: ScheduleInfo)
        ensures
            info@ == ScheduleInfoView::initial(),
    {
        ScheduleInfo { epoch: 0, nonce: 0, timestamp: 0, hash_chain: String::new() }
    }

    /// The epoch, in decimal.
    pub fn epoch(&self) -> (text: String)
        ensures
            text@ == signed_decimal_text(self.epoch as int),
    {
        signed_decimal_string(self.epoch as i64)
    }

    /// The nonce, in decimal.
    pub fn nonce(&self) -> (text: String)
        ensures
            text@ == signed_decimal_text(self.nonce as int),
    {
        signed_decimal_string(self.nonce as i64)
    }

    /// The timestamp, in decimal.
    pub fn timestamp(&self) -> (text: String)
        ensures
            text@ == signed_decimal_text(self.timestamp as int),
    {
        signed_decimal_string(self.timestamp)
    }

    /// The link to the previous message.
    pub fn hash_chain(&self) -> (text: String)
        ensures
            text@ == self.hash_chain@,
    {
        self.hash_chain.clone()
    }
}

/// Why no position was given.
#[derive(Clone, Copy, Debug, PartialEq, Eq, Structural)]
pub enum SchedulerError {
    /// The clock gave no time.
    Clock(ClockError),
    /// The store could not be read.
    Store(StoreErrorType),
    /// The process's log has used every nonce.
    NonceOverflow,
}

impl SchedulerError {
    /// The failure in words.
    pub open spec fn spec_message(self) -> Seq<char> {
        match self {
            SchedulerError::Clock(ClockError::BeforeEpoch) =>
                "error acquiring scheduler lock: system clock is before the Unix epoch"@,
            SchedulerError::Clock(ClockError::OutOfRange) =>
                "error acquiring scheduler lock: system time is out of range"@,
            SchedulerError::Store(StoreErrorType::NotFound) =>
                "error acquiring scheduler lock: record not found"@,
            SchedulerError::Store(StoreErrorType::DatabaseError) =>
                "error acquiring scheduler lock: table is full"@,
            SchedulerError::NonceOverflow =>
                "error acquiring scheduler lock: the process has used every nonce"@,
        }
    }

    /// The failure in words.
    pub fn message(self) -> (text: String)
        ensures
            text@ == self.spec_message(),
    {
        let words = match self {
            SchedulerError::Clock(ClockError::BeforeEpoch) =>
                "error acquiring scheduler lock: system clock is before the Unix epoch",
            SchedulerError::Clock(ClockError::OutOfRange) =>
                "error acquiring scheduler lock: system time is out of range",
            SchedulerError::Store(StoreErrorType::NotFound) =>
                "error acquiring scheduler lock: record not found",
            SchedulerError::Store(StoreErrorType::DatabaseError) =>
                "error acquiring scheduler lock: table is full",
            SchedulerError::NonceOverflow =>
                "error acquiring scheduler lock: the process has used every nonce",
        };
        words.to_owned()
    }
}

/// What an optional string holds.
pub open spec fn text_of(text: Option<String>) -> Option<Seq<char>> {
    match text {
        Some(t) => Some(t@),
        None => None,
    }
}

/// What an optional message holds.
pub open spec fn message_of(message: Option<Message>) -> Option<MessageView> {
    match message {
        Some(m) => Some(m@),
        None => None,
    }
}

/// Whether the log that ends with `latest` can take no further message: a
/// message is to be given a position, and the last nonce is the largest
/// `i32`.
pub open spec fn exhausted(latest: Option<MessageView>, message_id: Option<Seq<char>>) -> bool {
    message_id is Some && latest is Some && latest->0.nonce == i32::MAX
}

/// The position that the item `message_id` of process `process_id` gets at
/// time `millis`, where `latest` is the last message of the process's log.
///
/// Without a message id only the time is wanted.  The first message of a log
/// gets epoch 0 and nonce 0 and is linked to the process id.  Every later one
/// keeps the epoch, gets the next nonce and is linked to the message before
/// it.  An exhausted log takes no further message.
pub open spec fn scheduled(
    latest: Option<MessageView>,
    process_id: Seq<char>,
    message_id: Option<Seq<char>>,
    millis: i64,
) -> Option<ScheduleInfoView> {
    match message_id {
        None => Some(
            ScheduleInfoView { epoch: 0, nonce: 0, timestamp: millis, hash_chain: Seq::empty() },
        ),
        Some(id) => match latest {
            None => Some(
                ScheduleInfoView {
                    epoch: 0,
                    nonce: 0,
                    timestamp: millis,
                    hash_chain: hash_chain_link(process_id, id),
                },
            ),
            Some(previous) => if previous.nonce < i32::MAX {
                Some(
                    ScheduleInfoView {
                        epoch: previous.epoch,
                        nonce: (previous.nonce + 1) as i32,
                        timestamp: millis,
                        hash_chain: hash_chain_link(previous.hash_chain, id),
                    },
                )
            } else {
                None
            },
        },
    }
}

/// Gives the item `message_id` of process `process_id` its position at time
/// `millis`, after `latest`, the last message of the process's log.
pub fn schedule_next(
    latest: &Option<Message>,
    process_id: &String,
    message_id: &Option<String>,
    millis: i64,
) -> (next: Result<ScheduleInfo, SchedulerError>)
    ensures
        match next {
            Ok(info) => scheduled(message_of(*latest), process_id@, text_of(*message_id), millis)
                == Some(info@),
            Err(e) => e == SchedulerError::NonceOverflow && exhausted(
                message_of(*latest),
                text_of(*message_id),
            ),
        },
{
    match message_id {
        None => Ok(
            ScheduleInfo { epoch: 0, nonce: 0, timestamp: millis, hash_chain: String::new() },
        ),
        Some(id) => match latest {
            None => Ok(
                ScheduleInfo {
                    epoch: 0,
                    nonce: 0,
                    timestamp: millis,
                    hash_chain: gen_hash_chain(process_id.as_str(), id.as_str()),
                },
            ),
            Some(previous) => {
                if previous.nonce == i32::MAX {
                    return Err(SchedulerError::NonceOverflow);
                }
                Ok(
                    ScheduleInfo {
                        epoch: previous.epoch,
                        nonce: previous.nonce + 1,
                        timestamp: millis,
                        hash_chain: gen_hash_chain(previous.hash_chain.as_str(), id.as_str()),
                    },
                )
            },
        },
    }
}

/// Gives the item `message_id` of process `process_id` its position at time
/// `millis`, after the last message that `store` holds of the process.  The
/// store is not read where only the time is wanted.
pub fn fetch_values_from(
    store: &StoreClient,
    process_id: &String,
    message_id_in: Option<String>,
    millis: i64,
) -> (values: Result<(i32, i32, String, i64), SchedulerError>)
    ensures
        match values {
            Ok((epoch, nonce, hash_chain, timestamp)) => scheduled(
                store@.latest_message(process_id@),
                process_id@,
                text_of(message_id_in),
                millis,
            ) == Some(ScheduleInfoView { epoch, nonce, timestamp, hash_chain: hash_chain@ }),
            Err(e) => e == SchedulerError::NonceOverflow && exhausted(
                store@.latest_message(process_id@),
                text_of(message_id_in),
            ),
        },
{
    let latest = match message_id_in {
        Some(_) => match store.get_latest_message(process_id) {
            Ok(m) => m,
            Err(e) => {
                return Err(SchedulerError::Store(e));
            },
        },
        None => None,
    };
    let info = schedule_next(&latest, process_id, &message_id_in, millis)?;
    Ok((info.epoch, info.nonce, info.hash_chain, info.timestamp))
}

/// Gives the item `message_id` of process `process_id` its position at time
/// `millis`, after the last message that the store holds of the process.
pub fn fetch_values_at(
    deps: &SchedulerDeps,
    process_id: &String,
    message_id_in: Option<String>,
    millis: i64,
) -> (values: Result<(i32, i32, String, i64), SchedulerError>)
    ensures
        match values {
            Ok((epoch, nonce, hash_chain, timestamp)) => scheduled(
                deps.data_store@.latest_message(process_id@),
                process_id@,
                text_of(message_id_in),
                millis,
            ) == Some(ScheduleInfoView { epoch, nonce, timestamp, hash_chain: hash_chain@ }),
            Err(e) => e == SchedulerError::NonceOverflow && exhausted(
                deps.data_store@.latest_message(process_id@),
                text_of(message_id_in),
            ),
        },
{
    fetch_values_from(&deps.data_store, process_id, message_id_in, millis)
}

/// Reads the clock and gives the item `message_id` of process `process_id`
/// its position, after the last message that the store holds of the process.
/// Whatever the clock says, the position is the one that `scheduled` gives for
/// the time that comes back with it.
pub fn fetch_values(
    deps: &SchedulerDeps,
    process_id: &String,
    message_id_in: Option<String>,
) -> (values: Result<(i32, i32, String, i64), SchedulerError>)
    ensures
        match values {
            Ok((epoch, nonce, hash_chain, timestamp)) => scheduled(
                deps.data_store@.latest_message(process_id@),
                process_id@,
                text_of(message_id_in),
                timestamp,
            ) == Some(ScheduleInfoView { epoch, nonce, timestamp, hash_chain: hash_chain@ }),
            Err(e) => e is Clock || (e == SchedulerError::NonceOverflow && exhausted(
                deps.data_store@.latest_message(process_id@),
                text_of(message_id_in),
            )),
        },
{
    let millis = match read_millis() {
        Ok(t) => t,
        Err(e) => {
            return Err(SchedulerError::Clock(e));
        },
    };
    fetch_values_at(deps, process_id, message_id_in, millis)
}

/// `dashmap::DashMap`, a map that can be shared between threads.  Nothing
/// inside it is visible here; what it holds is named by `lock_table_entries`.
#[verifier::external_type_specification]
#[verifier::external_body]
#[verifier::reject_recursive_types(K)]
#[verifier::reject_recursive_types(V)]
#[verifier::reject_recursive_types(S)]
pub struct ExDashMap<K, V, S>(DashMap<K, V, S>);

/// The entries of a lock table: for each process id in it, the position that
/// was last given for the process.
pub uninterp spec fn lock_table_entries(
    table: DashMap<String, ScheduleInfo, RandomState>,
) -> Map<Seq<char>, ScheduleInfoView>;

/// `entries` with the initial entry for `id`, where it has none for it.
pub open spec fn with_entry_for(
    entries: Map<Seq<char>, ScheduleInfoView>,
    id: Seq<char>,
) -> Map<Seq<char>, ScheduleInfoView> {
    if entries.dom().contains(id) {
        entries
    } else {
        entries.insert(id, ScheduleInfoView::initial())
    }
}

/// `DashMap::new`.  Trusted: the map that comes back has no entry.
#[verifier::external_body]
fn lock_table_new() -> (table: DashMap<String, ScheduleInfo, RandomState>)
    ensures
        lock_table_entries(table) =~= Map::empty(),
{
    DashMap::new()
}

/// `DashMap::entry` with `Entry::or_insert_with`, and `RefMut::value` to read
/// what the entry holds.  Trusted: where the map has no entry for `id` it gets
/// the initial one, nothing else in the map changes, and what comes back is a
/// copy of the entry for `id`.
#[verifier::external_body]
fn lock_table_entry(
    table: &mut DashMap<String, ScheduleInfo, RandomState>,
    id: String,
) -> (entry: ScheduleInfo)
    ensures
        lock_table_entries(*final(table)) == with_entry_for(lock_table_entries(*old(table)), id@),
        entry@ == lock_table_entries(*final(table))[id@],
{
    table.entry(id).or_insert_with(|| ScheduleInfo::initial()).value().clone()
}

/// `DashMap::insert`.  Trusted: afterwards the map holds `info` for `id`, and
/// for every other key what it held before.
#[verifier::external_body]
fn lock_table_insert(
    table: &mut DashMap<String, ScheduleInfo, RandomState>,
    id: String,
    info: ScheduleInfo,
)
    ensures
        lock_table_entries(*final(table)) == lock_table_entries(*old(table)).insert(id@, info@),
{
    table.insert(id, info);
}

/// The lock table: for every process that the sequencer was asked about, the
/// position that it gave last.
pub struct LockTable {
    map: DashMap<String, ScheduleInfo, RandomState>,
}

impl LockTable {
    /// The entries of the table.
    pub closed spec fn entries(&self) -> Map<Seq<char>, ScheduleInfoView> {
        lock_table_entries(self.map)
    }

    /// A table without entries.
    pub fn new() -> (table: LockTable)
        ensures
            table.entries() == Map::<Seq<char>, ScheduleInfoView>::empty(),
    {
        LockTable { map: lock_table_new() }
    }

    /// The entry of process `id`, made first where the process has none.
    pub fn entry(&mut self, id: String) -> (entry: ScheduleInfo)
        ensures
            final(self).entries() == with_entry_for(old(self).entries(), id@),
            entry@ == final(self).entries()[id@],
    {
        lock_table_entry(&mut self.map, id)
    }

    /// Records `info` as the entry of process `id`.
    pub fn record(&mut self, id: String, info: ScheduleInfo)
        ensures
            final(self).entries() == old(self).entries().insert(id@, info@),
    {
        lock_table_insert(&mut self.map, id, info)
    }
}

/// The sequencer.  The store's log is what positions are computed from; the
/// lock table only records what was given.
pub struct ProcessScheduler {
    pub locks: LockTable,
    pub deps: SchedulerDeps,
}

impl ProcessScheduler {
    /// The entries of the lock table.
    pub open spec fn entries(&self) -> Map<Seq<char>, ScheduleInfoView> {
        self.locks.entries()
    }

    /// A sequencer with an empty lock table.
    pub fn new(deps: SchedulerDeps) -> (scheduler: ProcessScheduler)
        ensures
            scheduler.deps == deps,
            scheduler.entries() == Map::<Seq<char>, ScheduleInfoView>::empty(),
    {
        ProcessScheduler { locks: LockTable::new(), deps }
    }

    /// Gives the item `message_id` of process `id` its position at time
    /// `millis` and records it in the lock table.  The process gets its entry
    /// in the table even where no position can be given; the entry then keeps
    /// what it held.
    pub fn acquire_lock_at(
        &mut self,
        id: String,
        message_id: Option<String>,
        millis: i64,
    ) -> (acquired: Result<ScheduleInfo, SchedulerError>)
        ensures
            final(self).deps == old(self).deps,
            match acquired {
                Ok(info) => {
                    &&& scheduled(
                        old(self).deps.data_store@.latest_message(id@),
                        id@,
                        text_of(message_id),
                        millis,
                    ) == Some(info@)
                    &&& final(self).entries() == old(self).entries().insert(id@, info@)
                },
                Err(e) => {
                    &&& e == SchedulerError::NonceOverflow
                    &&& exhausted(
                        old(self).deps.data_store@.latest_message(id@),
                        text_of(message_id),
                    )
                    &&& final(self).entries() == with_entry_for(old(self).entries(), id@)
                },
            },
    {
        let _entry = self.locks.entry(id.clone());
        let (epoch, nonce, hash_chain, timestamp) = fetch_values_at(
            &self.deps,
            &id,
            message_id,
            millis,
        )?;
        let info = ScheduleInfo { epoch, nonce, timestamp, hash_chain };
        self.locks.record(id.clone(), info);
        let recorded = self.locks.entry(id);
        assert(self.entries() =~= old(self).entries().insert(id@, recorded@));
        Ok(recorded)
    }

    /// Reads the clock, gives the item `message_id` of process `id` its
    /// position and records it in the lock table.  Whatever the clock says,
    /// the position is the one that `scheduled` gives for the time that comes
    /// back with it.
    pub fn acquire_lock(&mut self, id: String, message_id: Option<String>) -> (acquired: Result<
        ScheduleInfo,
        SchedulerError,
    >)
        ensures
            final(self).deps == old(self).deps,
            match acquired {
                Ok(info) => {
                    &&& scheduled(
                        old(self).deps.data_store@.latest_message(id@),
                        id@,
                        text_of(message_id),
                        info.timestamp,
                    ) == Some(info@)
                    &&& final(self).entries() == old(self).entries().insert(id@, info@)
                },
                Err(e) => {
                    &&& e is Clock || (e == SchedulerError::NonceOverflow && exhausted(
                        old(self).deps.data_store@.latest_message(id@),
                        text_of(message_id),
                    ))
                    &&& final(self).entries() == with_entry_for(old(self).entries(), id@)
                },
            },
    {
        let millis = match read_millis() {
            Ok(t) => t,
            Err(e) => {
                let _entry = self.locks.entry(id);
                return Err(SchedulerError::Clock(e));
            },
        };
        self.acquire_lock_at(id, message_id, millis)
    }
}

} // verus!

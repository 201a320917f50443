//! What holds of the sequencer, the router and the registry of scheduler
//! units over any run of calls.

use crate::bundle::{tag_value, DataItemView};
use crate::config::Config;
use crate::flows::{
    data_item_redirect, message_record, new_process_redirect, process_id_redirect, reconciled,
    FlowError,
};
use crate::hash_chain::hash_chain_link;
use crate::json::MessageView;
use crate::router::{
    assigned, least_loaded, lemma_least_loaded, ProcessSchedulerView, SchedulerView,
};
use crate::rows::{
    lemma_first_match, lemma_first_match_some_iff_matching, lemma_last_match_is_last_matching,
    lemma_push_first_match, lemma_push_matching, matching,
};
use crate::scheduler::{scheduled, ScheduleInfoView};
use crate::store::{row_id_at, StoreView};
use vstd::prelude::*;

verus! {

/// The same inputs give the same link: the link is a function of the two
/// texts that it is made of.
pub proof fn lemma_hash_chain_is_deterministic(
    previous_a: Seq<char>,
    message_a: Seq<char>,
    previous_b: Seq<char>,
    message_b: Seq<char>,
)
    requires
        previous_a == previous_b,
        message_a == message_b,
    ensures
        hash_chain_link(previous_a, message_a) == hash_chain_link(previous_b, message_b),
{
}

/// The message with id `message_id` of process `process_id`, at the position
/// `info`: what writing an item with that id and that target saves.
pub open spec fn sequenced_message(
    process_id: Seq<char>,
    message_id: Seq<char>,
    info: ScheduleInfoView,
) -> MessageView {
    message_record(DataItemView { id: message_id, target: process_id, tags: Seq::empty() }, info)
}

/// The store after the messages `ids` of process `process_id` were given
/// their positions and saved, one after the other, at the times `stamps`.  A
/// message that gets no position is not saved.
pub open spec fn sequenced(
    s: StoreView,
    process_id: Seq<char>,
    ids: Seq<Seq<char>>,
    stamps: Seq<i64>,
) -> StoreView
    decreases ids.len(),
{
    if ids.len() == 0 {
        s
    } else {
        let before = sequenced(s, process_id, ids.drop_last(), stamps.drop_last());
        match scheduled(
            before.latest_message(process_id),
            process_id,
            Some(ids.last()),
            stamps.last(),
        ) {
            Some(info) => before.with_message(sequenced_message(process_id, ids.last(), info)),
            None => before,
        }
    }
}

/// The link that the message at position `i` of a log carries: the first is
/// linked to the process id, every later one to the link before it.
pub open spec fn expected_link(
    log: Seq<MessageView>,
    process_id: Seq<char>,
    ids: Seq<Seq<char>>,
    i: int,
) -> Seq<char> {
    if i == 0 {
        hash_chain_link(process_id, ids[0])
    } else {
        hash_chain_link(log[i - 1].hash_chain, ids[i])
    }
}

/// Sequencing is gap-free: where a process has no message and its messages
/// `ids`, no more than there are nonces, are given their positions and saved
/// one after the other, the log holds them in that order, the nonces count
/// from 0 without gap, the epoch is 0, and each message is linked to the one
/// before it, the first to the process id.
pub proof fn lemma_sequencing_is_gap_free(
    s: StoreView,
    process_id: Seq<char>,
    ids: Seq<Seq<char>>,
    stamps: Seq<i64>,
)
    requires
        s.messages_of(process_id).len() == 0,
        stamps.len() == ids.len(),
        ids.len() <= i32::MAX + 1,
    ensures
        ({
            let log = sequenced(s, process_id, ids, stamps).messages_of(process_id);
            &&& log.len() == ids.len()
            &&& forall|i: int|
                #![trigger log[i]]
                0 <= i < ids.len() ==> {
                    &&& log[i].message_id == ids[i]
                    &&& log[i].process_id == process_id
                    &&& log[i].epoch == 0
                    &&& log[i].nonce == i
                    &&& log[i].timestamp == stamps[i]
                    &&& log[i].hash_chain == expected_link(log, process_id, ids, i)
                }
        }),
    decreases ids.len(),
{
    let wanted = |m: MessageView| m.process_id == process_id;
    if ids.len() == 0 {
    } else {
        let earlier_ids = ids.drop_last();
        let earlier_stamps = stamps.drop_last();
        lemma_sequencing_is_gap_free(s, process_id, earlier_ids, earlier_stamps);
        let before = sequenced(s, process_id, earlier_ids, earlier_stamps);
        let earlier_log = before.messages_of(process_id);
        lemma_last_match_is_last_matching(before.messages, wanted);
        let latest = before.latest_message(process_id);
        let info = scheduled(latest, process_id, Some(ids.last()), stamps.last());
        if earlier_ids.len() > 0 {
            assert(latest == Some(earlier_log.last()));
            assert(earlier_log.last() == earlier_log[earlier_ids.len() - 1]);
            assert(earlier_log.last().nonce == earlier_ids.len() - 1);
        } else {
            assert(latest is None);
        }
        assert(info is Some);
        let message = sequenced_message(process_id, ids.last(), info->0);
        lemma_push_matching(before.messages, message, wanted);
        let log = sequenced(s, process_id, ids, stamps).messages_of(process_id);
        assert(log == earlier_log.push(message));
        assert forall|i: int| #![trigger log[i]] 0 <= i < ids.len() implies {
            &&& log[i].message_id == ids[i]
            &&& log[i].process_id == process_id
            &&& log[i].epoch == 0
            &&& log[i].nonce == i
            &&& log[i].timestamp == stamps[i]
            &&& log[i].hash_chain == expected_link(log, process_id, ids, i)
        } by {
            if i < ids.len() - 1 {
                assert(log[i] == earlier_log[i]);
                assert(earlier_ids[i] == ids[i]);
                assert(earlier_stamps[i] == stamps[i]);
                if i > 0 {
                    assert(log[i - 1] == earlier_log[i - 1]);
                }
                assert(expected_link(log, process_id, ids, i) == expected_link(
                    earlier_log,
                    process_id,
                    earlier_ids,
                    i,
                ));
            } else {
                assert(log[i] == message);
                if i > 0 {
                    assert(log[i - 1] == earlier_log.last());
                }
            }
        }
    }
}

/// A unit that the store knows stays known when further units are made known
/// to it.
pub proof fn lemma_reconcile_keeps_known(s: StoreView, urls: Seq<Seq<char>>, url: Seq<char>)
    requires
        s.scheduler_by_url(url) is Some,
    ensures
        reconciled(s, urls).0.scheduler_by_url(url) == s.scheduler_by_url(url),
    decreases urls.len(),
{
    if urls.len() > 0 {
        lemma_reconcile_keeps_known(s, urls.drop_last(), url);
        let before = reconciled(s, urls.drop_last()).0;
        let row = SchedulerView {
            row_id: row_id_at(before.schedulers.len() as int),
            url: urls.last(),
            process_count: 0,
        };
        let wanted = |u: SchedulerView| u.url == url;
        lemma_push_first_match(before.schedulers, row, wanted);
        lemma_first_match(before.schedulers, wanted);
    }
}

/// After the units at `urls` were made known to the store without failure,
/// the store knows each of them.
pub proof fn lemma_reconcile_makes_known(s: StoreView, urls: Seq<Seq<char>>, i: int)
    requires
        reconciled(s, urls).1 is None,
        0 <= i < urls.len(),
    ensures
        reconciled(s, urls).0.scheduler_by_url(urls[i]) is Some,
    decreases urls.len(),
{
    let before = reconciled(s, urls.drop_last()).0;
    let row = SchedulerView {
        row_id: row_id_at(before.schedulers.len() as int),
        url: urls.last(),
        process_count: 0,
    };
    lemma_push_first_match(before.schedulers, row, |u: SchedulerView| u.url == urls[i]);
    if i < urls.len() - 1 {
        lemma_reconcile_makes_known(s, urls.drop_last(), i);
    }
}

/// Where the store knows every unit at `urls`, making them known changes
/// nothing.
pub proof fn lemma_reconcile_of_known(s: StoreView, urls: Seq<Seq<char>>)
    requires
        forall|i: int| 0 <= i < urls.len() ==> s.scheduler_by_url(#[trigger] urls[i]) is Some,
    ensures
        reconciled(s, urls) == (s, None::<FlowError>),
    decreases urls.len(),
{
    if urls.len() > 0 {
        assert forall|i: int| 0 <= i < urls.drop_last().len() implies s.scheduler_by_url(
            #[trigger] urls.drop_last()[i],
        ) is Some by {
            assert(urls.drop_last()[i] == urls[i]);
        }
        lemma_reconcile_of_known(s, urls.drop_last());
        assert(urls.last() == urls[urls.len() - 1]);
    }
}

/// Making units known is idempotent: a second run over the same addresses,
/// after a first that did not fail, changes nothing.
pub proof fn lemma_reconcile_is_idempotent(s: StoreView, urls: Seq<Seq<char>>)
    requires
        reconciled(s, urls).1 is None,
    ensures
        reconciled(reconciled(s, urls).0, urls) == reconciled(s, urls),
{
    let after = reconciled(s, urls).0;
    assert forall|i: int| 0 <= i < urls.len() implies after.scheduler_by_url(
        #[trigger] urls[i],
    ) is Some by {
        lemma_reconcile_makes_known(s, urls, i);
    }
    lemma_reconcile_of_known(after, urls);
}

/// The number of units that the store holds at `url`.
pub open spec fn units_at(s: StoreView, url: Seq<char>) -> nat {
    matching(s.schedulers, |u: SchedulerView| u.url == url).len()
}

/// Making units known saves each at most once: the store holds afterwards as
/// many units at an address as before where it held one, and at most one
/// where it held none.
pub proof fn lemma_reconcile_saves_at_most_once(s: StoreView, urls: Seq<Seq<char>>, url: Seq<char>)
    ensures
        units_at(s, url) > 0 ==> units_at(reconciled(s, urls).0, url) == units_at(s, url),
        units_at(s, url) == 0 ==> units_at(reconciled(s, urls).0, url) <= 1,
        units_at(s, url) == 0 && urls.contains(url) && reconciled(s, urls).1 is None ==> units_at(
            reconciled(s, urls).0,
            url,
        ) == 1,
        units_at(s, url) == 0 && !urls.contains(url) ==> units_at(reconciled(s, urls).0, url)
            == 0,
    decreases urls.len(),
{
    let wanted = |u: SchedulerView| u.url == url;
    if urls.len() > 0 {
        let earlier = urls.drop_last();
        lemma_reconcile_saves_at_most_once(s, earlier, url);
        let before = reconciled(s, earlier).0;
        let row = SchedulerView {
            row_id: row_id_at(before.schedulers.len() as int),
            url: urls.last(),
            process_count: 0,
        };
        lemma_push_matching(before.schedulers, row, wanted);
        lemma_first_match_some_iff_matching(before.schedulers, wanted);
        assert(urls.last() == urls[urls.len() - 1]);
        if urls.contains(url) && urls.last() != url {
            let k = choose|k: int| 0 <= k < urls.len() && urls[k] == url;
            assert(earlier[k] == url);
        }
        if earlier.contains(url) {
            let k = choose|k: int| 0 <= k < earlier.len() && earlier[k] == url;
            assert(urls[k] == url);
        }
        if reconciled(s, urls).1 is None && earlier.contains(url) {
            assert(reconciled(s, earlier).1 is None);
        }
    }
}

/// Making units known only adds: every row that the store held stays as it
/// was, every new row is a unit of the list with no process assigned, and
/// the other tables are untouched.
pub proof fn lemma_reconcile_only_adds(s: StoreView, urls: Seq<Seq<char>>)
    requires
        s.wf(),
    ensures
        ({
            let after = reconciled(s, urls).0;
            &&& after.wf()
            &&& after.messages == s.messages
            &&& after.processes == s.processes
            &&& after.process_schedulers == s.process_schedulers
            &&& s.schedulers.len() <= after.schedulers.len() <= s.schedulers.len() + urls.len()
            &&& forall|i: int|
                0 <= i < s.schedulers.len() ==> #[trigger] after.schedulers[i] == s.schedulers[i]
            &&& forall|i: int|
                s.schedulers.len() <= i < after.schedulers.len() ==> {
                    &&& (#[trigger] after.schedulers[i]).process_count == 0
                    &&& urls.contains(after.schedulers[i].url)
                }
        }),
    decreases urls.len(),
{
    if urls.len() > 0 {
        let earlier = urls.drop_last();
        lemma_reconcile_only_adds(s, earlier);
        let before = reconciled(s, earlier).0;
        let after = reconciled(s, urls).0;
        assert(urls.last() == urls[urls.len() - 1]);
        assert forall|i: int| s.schedulers.len() <= i < after.schedulers.len() implies {
            &&& (#[trigger] after.schedulers[i]).process_count == 0
            &&& urls.contains(after.schedulers[i].url)
        } by {
            if i < before.schedulers.len() {
                assert(after.schedulers[i] == before.schedulers[i]);
                let k = choose|k: int|
                    0 <= k < earlier.len() && earlier[k] == before.schedulers[i].url;
                assert(urls[k] == before.schedulers[i].url);
            }
        }
    }
}

/// The deployment's own process is never redirected, whatever the store
/// holds.
pub proof fn lemma_native_process_is_local(config: Config, s: StoreView)
    ensures
        process_id_redirect(config, s, Some(config.ao_process_id@)) == Ok::<
            Option<Seq<char>>,
            FlowError,
        >(None),
{
}

/// The deployment's own process is never created again: an item of type
/// `Process` with its id leaves the store as it was, and a router refuses it.
pub proof fn lemma_native_process_is_not_recreated(config: Config, s: StoreView, item: DataItemView)
    requires
        tag_value(item.tags, "Type"@) == Some("Process"@),
        item.id == config.ao_process_id@,
    ensures
        data_item_redirect(config, s, item).1 == s,
        config.is_router() ==> data_item_redirect(config, s, item).0 == Err::<
            Option<Seq<char>>,
            FlowError,
        >(FlowError::ReservedProcessId),
        !config.is_router() ==> data_item_redirect(config, s, item).0 == Ok::<
            Option<Seq<char>>,
            FlowError,
        >(None),
{
}

/// A new process goes to the least loaded unit: where the pool is not empty
/// and neither the unit's count nor the table of assignments is exhausted,
/// the caller is sent to the first unit with the smallest count, that unit's
/// count grows by one, every other unit stays as it was, and the assignment
/// is saved in a new row.
pub proof fn lemma_new_process_goes_to_least_loaded(s: StoreView, process_id: Seq<char>)
    requires
        s.wf(),
        s.schedulers.len() > 0,
        s.schedulers.len() <= i32::MAX,
        s.has_room_for_process_scheduler(),
        forall|i: int| 0 <= i < s.schedulers.len() ==> (#[trigger] s.schedulers[i]).process_count
            < i32::MAX,
    ensures
        ({
            let (redirect, after) = new_process_redirect(s, process_id);
            let j = least_loaded(s.schedulers)->0;
            &&& least_loaded(s.schedulers) is Some
            &&& 0 <= j < s.schedulers.len()
            &&& forall|i: int|
                0 <= i < s.schedulers.len() ==> s.schedulers[j].process_count <= (
                #[trigger] s.schedulers[i]).process_count
            &&& forall|i: int|
                0 <= i < j ==> s.schedulers[j].process_count < (
                #[trigger] s.schedulers[i]).process_count
            &&& redirect == Ok::<Option<Seq<char>>, FlowError>(Some(s.schedulers[j].url))
            &&& after.wf()
            &&& after.schedulers.len() == s.schedulers.len()
            &&& after.schedulers[j] == SchedulerView {
                process_count: (s.schedulers[j].process_count + 1) as i32,
                ..s.schedulers[j]
            }
            &&& forall|i: int|
                0 <= i < s.schedulers.len() && i != j ==> #[trigger] after.schedulers[i]
                    == s.schedulers[i]
            &&& after.process_schedulers == s.process_schedulers.push(
                ProcessSchedulerView {
                    row_id: row_id_at(s.process_schedulers.len() as int),
                    process_id,
                    scheduler_row_id: (j + 1) as i32,
                },
            )
            &&& after.messages == s.messages
            &&& after.processes == s.processes
        }),
{
    lemma_least_loaded(s.schedulers);
    let j = least_loaded(s.schedulers)->0;
    assert(s.schedulers[j].row_id == row_id_at(j));
}

/// A process that was assigned is sent to its unit: after a new process
/// without earlier assignment was assigned, a request for it is sent where
/// the assignment sent its creator.
pub proof fn lemma_assigned_process_is_redirected(
    config: Config,
    s: StoreView,
    process_id: Seq<char>,
)
    requires
        s.wf(),
        config.is_router(),
        process_id != config.ao_process_id@,
        s.process_scheduler(process_id) is None,
        new_process_redirect(s, process_id).0 is Ok,
    ensures
        process_id_redirect(config, new_process_redirect(s, process_id).1, Some(process_id))
            == new_process_redirect(s, process_id).0,
{
    lemma_least_loaded(s.schedulers);
    let j = least_loaded(s.schedulers)->0;
    let (assignment, unit) = assigned(s.schedulers, process_id)->Ok_0;
    let row = ProcessSchedulerView {
        row_id: row_id_at(s.process_schedulers.len() as int),
        ..assignment
    };
    lemma_push_first_match(
        s.process_schedulers,
        row,
        |a: ProcessSchedulerView| a.process_id == process_id,
    );
    assert(s.schedulers[j].row_id == row_id_at(j));
}

} // verus!

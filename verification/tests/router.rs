use su::bundle::{DataItem, Tag};
use su::config::Config;
use su::flows::{
    redirect_data_item, redirect_new_process, redirect_process_id, redirect_tx_id, scheduler_url,
    Deps, ErrorKind, FlowError,
};
use su::router::{
    assign_process, select_scheduler, AssignError, Assignment, ProcessScheduler, Scheduler,
};
use su::store::{StoreClient, StoreErrorType};

fn config(mode: &str) -> Config {
    Config {
        mode: mode.to_string(),
        ao_process_id: "native".to_string(),
        su_wallet_path: String::new(),
        upload_node_url: String::new(),
        gateway_url: String::new(),
        scheduler_list_path: String::new(),
    }
}

fn router() -> Deps {
    Deps { data_store: StoreClient::new(), config: config("router") }
}

fn unit(row_id: i32, url: &str, process_count: i32) -> Scheduler {
    Scheduler { row_id: Some(row_id), url: url.to_string(), process_count }
}

fn pool(counts: &[i32]) -> Vec<Scheduler> {
    let mut units = Vec::new();
    for (i, count) in counts.iter().enumerate() {
        units.push(unit(i as i32 + 1, &format!("https://su{}", i + 1), *count));
    }
    units
}

fn router_with_pool(counts: &[i32]) -> Deps {
    let mut deps = router();
    for scheduler in pool(counts) {
        deps.data_store.save_scheduler(&scheduler).unwrap();
    }
    deps
}

fn item(id: &str, target: &str, tags: &[(&str, &str)]) -> DataItem {
    let mut list = Vec::new();
    for (name, value) in tags {
        list.push(Tag { name: name.to_string(), value: value.to_string() });
    }
    DataItem { id: id.to_string(), target: target.to_string(), tags: list }
}

#[test]
fn select_scheduler_takes_the_smallest_count() {
    assert_eq!(select_scheduler(&pool(&[3, 1, 2])), Some(1));
    assert_eq!(select_scheduler(&pool(&[0])), Some(0));
    assert_eq!(select_scheduler(&pool(&[5, 4, 3])), Some(2));
}

#[test]
fn select_scheduler_takes_the_first_of_equal_counts() {
    assert_eq!(select_scheduler(&pool(&[2, 1, 1, 1])), Some(1));
    assert_eq!(select_scheduler(&pool(&[7, 7, 7])), Some(0));
}

#[test]
fn select_scheduler_finds_nothing_in_an_empty_pool() {
    assert_eq!(select_scheduler(&pool(&[])), None);
}

#[test]
fn assign_process_counts_the_process_in() {
    let assignment = assign_process(&pool(&[3, 1, 2]), &"P".to_string()).unwrap();
    assert_eq!(
        assignment,
        Assignment {
            process_scheduler: ProcessScheduler {
                row_id: None,
                process_id: "P".to_string(),
                scheduler_row_id: 2,
            },
            scheduler: unit(2, "https://su2", 2),
        }
    );
}

#[test]
fn assign_process_needs_a_unit() {
    assert_eq!(assign_process(&pool(&[]), &"P".to_string()), Err(AssignError::NoSchedulers));
}

#[test]
fn assign_process_needs_a_unit_that_can_take_one_more() {
    assert_eq!(
        assign_process(&pool(&[i32::MAX, i32::MAX]), &"P".to_string()),
        Err(AssignError::NoSchedulers)
    );
    let assignment = assign_process(&pool(&[i32::MAX, i32::MAX - 1]), &"P".to_string()).unwrap();
    assert_eq!(assignment.scheduler, unit(2, "https://su2", i32::MAX));
}

#[test]
fn assign_process_needs_a_row_id_on_the_chosen_unit() {
    let units = vec![
        unit(1, "https://su1", 4),
        Scheduler { row_id: None, url: "https://su2".to_string(), process_count: 0 },
    ];
    assert_eq!(assign_process(&units, &"P".to_string()), Err(AssignError::MissingSchedulerId));
}

#[test]
fn new_process_goes_to_the_least_loaded_unit() {
    let mut deps = router_with_pool(&[3, 1, 2]);
    let new_process = item("P", "", &[("Type", "Process")]);
    assert_eq!(redirect_data_item(&mut deps, &new_process), Ok(Some("https://su2".to_string())));
    assert_eq!(
        deps.data_store.get_all_schedulers(),
        Ok(vec![unit(1, "https://su1", 3), unit(2, "https://su2", 2), unit(3, "https://su3", 2)])
    );
    assert_eq!(
        deps.data_store.get_process_scheduler(&"P".to_string()),
        Ok(ProcessScheduler { row_id: Some(1), process_id: "P".to_string(), scheduler_row_id: 2 })
    );
}

#[test]
fn new_processes_are_spread_over_the_pool() {
    let mut deps = router_with_pool(&[0, 0, 0]);
    let mut sent = Vec::new();
    for id in ["A", "B", "C", "D"] {
        let new_process = item(id, "", &[("Type", "Process")]);
        sent.push(redirect_data_item(&mut deps, &new_process).unwrap().unwrap());
    }
    assert_eq!(sent, vec!["https://su1", "https://su2", "https://su3", "https://su1"]);
    assert_eq!(
        deps.data_store.get_all_schedulers(),
        Ok(vec![unit(1, "https://su1", 2), unit(2, "https://su2", 1), unit(3, "https://su3", 1)])
    );
}

#[test]
fn assigned_process_is_redirected_to_its_unit() {
    let mut deps = router_with_pool(&[3, 1, 2]);
    let sent = redirect_new_process(&mut deps.data_store, &"P".to_string());
    assert_eq!(sent, Ok(Some("https://su2".to_string())));
    assert_eq!(scheduler_url(&deps.data_store, &"P".to_string()), Ok("https://su2".to_string()));
    assert_eq!(redirect_process_id(&deps, Some("P".to_string())), sent);
    assert_eq!(redirect_tx_id(&deps, "P".to_string(), None), sent);
    let message = item("m1", "P", &[("Type", "Message")]);
    assert_eq!(redirect_data_item(&mut deps, &message), sent);
}

#[test]
fn new_process_needs_a_pool() {
    let mut deps = router();
    let new_process = item("P", "", &[("Type", "Process")]);
    assert_eq!(redirect_data_item(&mut deps, &new_process), Err(FlowError::NoSchedulers));
    assert_eq!(
        deps.data_store.get_process_scheduler(&"P".to_string()),
        Err(StoreErrorType::NotFound)
    );
}

#[test]
fn exhausted_pool_takes_no_new_process() {
    let mut deps = router_with_pool(&[i32::MAX]);
    let new_process = item("P", "", &[("Type", "Process")]);
    assert_eq!(redirect_data_item(&mut deps, &new_process), Err(FlowError::NoSchedulers));
    assert_eq!(deps.data_store.get_all_schedulers(), Ok(vec![unit(1, "https://su1", i32::MAX)]));
    assert_eq!(
        deps.data_store.get_process_scheduler(&"P".to_string()),
        Err(StoreErrorType::NotFound)
    );
}

#[test]
fn native_process_is_handled_locally_whatever_the_store_holds() {
    let empty = router();
    assert_eq!(redirect_process_id(&empty, Some("native".to_string())), Ok(None));
    let mut filled = router_with_pool(&[3, 1, 2]);
    redirect_new_process(&mut filled.data_store, &"native".to_string()).unwrap();
    redirect_new_process(&mut filled.data_store, &"P".to_string()).unwrap();
    assert_eq!(redirect_process_id(&filled, Some("native".to_string())), Ok(None));
    assert_eq!(redirect_tx_id(&filled, "native".to_string(), None), Ok(None));
    assert_eq!(redirect_tx_id(&filled, "native".to_string(), Some("P".to_string())), Ok(None));
}

#[test]
fn native_process_is_never_created_again() {
    let mut deps = router_with_pool(&[3, 1, 2]);
    let recreate = item("native", "", &[("Type", "Process")]);
    assert_eq!(redirect_data_item(&mut deps, &recreate), Err(FlowError::ReservedProcessId));
    assert_eq!(
        deps.data_store.get_all_schedulers(),
        Ok(vec![unit(1, "https://su1", 3), unit(2, "https://su2", 1), unit(3, "https://su3", 2)])
    );
    assert_eq!(
        deps.data_store.get_process_scheduler(&"native".to_string()),
        Err(StoreErrorType::NotFound)
    );
}

#[test]
fn message_to_the_native_process_is_handled_locally() {
    let mut deps = router_with_pool(&[0]);
    let message = item("m1", "native", &[("Type", "Message")]);
    assert_eq!(redirect_data_item(&mut deps, &message), Ok(None));
}

#[test]
fn message_to_an_unassigned_process_is_not_found() {
    let mut deps = router_with_pool(&[0]);
    let message = item("m1", "P", &[("Type", "Message")]);
    assert_eq!(
        redirect_data_item(&mut deps, &message),
        Err(FlowError::Store(StoreErrorType::NotFound))
    );
    assert_eq!(deps.data_store.get_all_schedulers(), Ok(vec![unit(1, "https://su1", 0)]));
}

#[test]
fn item_without_type_tag_is_refused() {
    let mut deps = router_with_pool(&[0]);
    let untyped = item("x", "P", &[("Data-Protocol", "ao")]);
    assert_eq!(redirect_data_item(&mut deps, &untyped), Err(FlowError::InvalidTypeTag));
}

#[test]
fn item_of_another_type_is_refused() {
    let mut deps = router_with_pool(&[0]);
    let other = item("x", "P", &[("Type", "Assignment")]);
    assert_eq!(redirect_data_item(&mut deps, &other), Err(FlowError::InvalidTypeTag));
    let lower = item("x", "P", &[("Type", "process")]);
    assert_eq!(redirect_data_item(&mut deps, &lower), Err(FlowError::InvalidTypeTag));
    assert_eq!(deps.data_store.get_all_schedulers(), Ok(vec![unit(1, "https://su1", 0)]));
}

#[test]
fn first_type_tag_decides() {
    let mut deps = router_with_pool(&[0]);
    let both = item("m1", "native", &[("Type", "Message"), ("Type", "Process")]);
    assert_eq!(redirect_data_item(&mut deps, &both), Ok(None));
    assert_eq!(deps.data_store.get_all_schedulers(), Ok(vec![unit(1, "https://su1", 0)]));
}

#[test]
fn redirect_by_process_id_needs_a_process_id() {
    let deps = router();
    assert_eq!(redirect_process_id(&deps, None), Err(FlowError::MissingProcessId));
}

#[test]
fn redirect_by_process_id_does_not_find_an_unassigned_process() {
    let deps = router_with_pool(&[0]);
    assert_eq!(
        redirect_process_id(&deps, Some("P".to_string())),
        Err(FlowError::Store(StoreErrorType::NotFound))
    );
}

#[test]
fn redirect_by_tx_id_without_assignment_needs_a_process_hint() {
    let deps = router_with_pool(&[0]);
    assert_eq!(redirect_tx_id(&deps, "abc".to_string(), None), Err(FlowError::ProcessHintRequired));
}

#[test]
fn redirect_by_tx_id_uses_the_process_hint() {
    let mut deps = router_with_pool(&[2, 0]);
    redirect_new_process(&mut deps.data_store, &"P".to_string()).unwrap();
    assert_eq!(
        redirect_tx_id(&deps, "abc".to_string(), Some("P".to_string())),
        Ok(Some("https://su2".to_string()))
    );
}

#[test]
fn redirect_by_tx_id_with_an_unassigned_hint_fails() {
    let deps = router_with_pool(&[0]);
    assert_eq!(
        redirect_tx_id(&deps, "abc".to_string(), Some("Q".to_string())),
        Err(FlowError::ProcessHintRequired)
    );
}

#[test]
fn redirect_by_tx_id_takes_an_assigned_id_before_the_hint() {
    let mut deps = router_with_pool(&[0, 0]);
    redirect_new_process(&mut deps.data_store, &"P".to_string()).unwrap();
    redirect_new_process(&mut deps.data_store, &"Q".to_string()).unwrap();
    assert_eq!(
        redirect_tx_id(&deps, "P".to_string(), Some("Q".to_string())),
        Ok(Some("https://su1".to_string()))
    );
}

#[test]
fn assignment_to_a_missing_unit_is_not_found() {
    let mut deps = router_with_pool(&[0]);
    let dangling = ProcessScheduler { row_id: None, process_id: "P".to_string(), scheduler_row_id: 9 };
    deps.data_store.save_process_scheduler(&dangling).unwrap();
    let not_found = Err(FlowError::Store(StoreErrorType::NotFound));
    assert_eq!(redirect_process_id(&deps, Some("P".to_string())), not_found);
    assert_eq!(redirect_tx_id(&deps, "P".to_string(), None), not_found);
    assert_eq!(scheduler_url(&deps.data_store, &"P".to_string()), Err(StoreErrorType::NotFound));
}

#[test]
fn unit_that_is_no_router_redirects_nothing() {
    let mut deps = Deps { data_store: StoreClient::new(), config: config("su") };
    deps.data_store.save_scheduler(&unit(1, "https://su1", 0)).unwrap();
    assert_eq!(redirect_process_id(&deps, None), Ok(None));
    assert_eq!(redirect_process_id(&deps, Some("P".to_string())), Ok(None));
    assert_eq!(redirect_tx_id(&deps, "abc".to_string(), None), Ok(None));
    let new_process = item("P", "", &[("Type", "Process")]);
    assert_eq!(redirect_data_item(&mut deps, &new_process), Ok(None));
    let untyped = item("x", "", &[]);
    assert_eq!(redirect_data_item(&mut deps, &untyped), Ok(None));
    let recreate = item("native", "", &[("Type", "Process")]);
    assert_eq!(redirect_data_item(&mut deps, &recreate), Ok(None));
    assert_eq!(deps.data_store.get_all_schedulers(), Ok(vec![unit(1, "https://su1", 0)]));
    assert_eq!(
        deps.data_store.get_process_scheduler(&"P".to_string()),
        Err(StoreErrorType::NotFound)
    );
}

#[test]
fn router_mode_is_the_word_router() {
    assert!(config("router").router_mode());
    assert!(!config("su").router_mode());
    assert!(!config("Router").router_mode());
    assert!(!config("").router_mode());
}

#[test]
fn failures_fall_into_kinds() {
    assert_eq!(FlowError::MissingProcessId.kind(), ErrorKind::ValidationError);
    assert_eq!(FlowError::ProcessHintRequired.kind(), ErrorKind::Ambiguous);
    assert_eq!(FlowError::InvalidTypeTag.kind(), ErrorKind::ValidationError);
    assert_eq!(FlowError::ReservedProcessId.kind(), ErrorKind::ValidationError);
    assert_eq!(FlowError::NoSchedulers.kind(), ErrorKind::Exhausted);
    assert_eq!(FlowError::MissingSchedulerId.kind(), ErrorKind::StoreError);
    assert_eq!(FlowError::MissingProtocolTag.kind(), ErrorKind::ValidationError);
    assert_eq!(FlowError::MissingTypeTag.kind(), ErrorKind::ValidationError);
    assert_eq!(FlowError::InvalidTypeValue.kind(), ErrorKind::ValidationError);
    assert_eq!(FlowError::MissingProcessTags.kind(), ErrorKind::ValidationError);
    assert_eq!(FlowError::MessageOrProcessNotFound.kind(), ErrorKind::NotFound);
    assert_eq!(FlowError::Store(StoreErrorType::NotFound).kind(), ErrorKind::NotFound);
    assert_eq!(FlowError::Store(StoreErrorType::DatabaseError).kind(), ErrorKind::StoreError);
    assert_eq!(
        FlowError::Clock(su::clock::ClockError::BeforeEpoch).kind(),
        ErrorKind::ClockError
    );
}

#[test]
fn failures_are_told_in_words() {
    assert_eq!(FlowError::MissingProcessId.message(), "No process-id query parameter provided");
    assert_eq!(
        FlowError::ProcessHintRequired.message(),
        "Unable to locate process, if this is a message id query be sure to pass the process-id query parameter"
    );
    assert_eq!(FlowError::InvalidTypeTag.message(), "Cannot redirect data item, invalid Type Tag");
    assert_eq!(FlowError::ReservedProcessId.message(), "Cannot recreate the ao staking process");
    assert_eq!(FlowError::NoSchedulers.message(), "Could not balance schedulers");
    assert_eq!(FlowError::MissingSchedulerId.message(), "Missing id on scheduler");
    assert_eq!(FlowError::MissingProtocolTag.message(), "Data-Protocol tag not present");
    assert_eq!(FlowError::MissingTypeTag.message(), "Type tag not present");
    assert_eq!(FlowError::InvalidTypeValue.message(), "Type tag has an invalid value");
    assert_eq!(
        FlowError::MissingProcessTags.message(),
        "Required Module and Scheduler tags for Process type not present"
    );
    assert_eq!(FlowError::MessageOrProcessNotFound.message(), "Message or Process not found");
    assert_eq!(FlowError::Store(StoreErrorType::NotFound).message(), "Record not found");
    assert_eq!(FlowError::Store(StoreErrorType::DatabaseError).message(), "Table is full");
    assert_eq!(
        FlowError::Clock(su::clock::ClockError::BeforeEpoch).message(),
        "System clock is before the Unix epoch"
    );
    assert_eq!(
        FlowError::Clock(su::clock::ClockError::OutOfRange).message(),
        "System time is out of range"
    );
}

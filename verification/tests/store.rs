use su::json::{Message, Process};
use su::router::{ProcessScheduler, Scheduler};
use su::store::{StoreClient, StoreErrorType};

fn message(id: &str, process: &str, nonce: i32) -> Message {
    Message {
        message_id: id.to_string(),
        process_id: process.to_string(),
        epoch: 0,
        nonce,
        timestamp: 1000 + nonce as i64,
        hash_chain: format!("chain-{}", nonce),
    }
}

fn unit(url: &str, process_count: i32) -> Scheduler {
    Scheduler { row_id: None, url: url.to_string(), process_count }
}

#[test]
fn empty_store_finds_nothing() {
    let store = StoreClient::new();
    assert_eq!(store.get_message(&"m".to_string()), Err(StoreErrorType::NotFound));
    assert_eq!(store.get_process(&"p".to_string()), Err(StoreErrorType::NotFound));
    assert_eq!(store.get_scheduler(&1), Err(StoreErrorType::NotFound));
    assert_eq!(store.get_scheduler_by_url(&"a".to_string()), Err(StoreErrorType::NotFound));
    assert_eq!(store.get_process_scheduler(&"p".to_string()), Err(StoreErrorType::NotFound));
    assert_eq!(store.get_latest_message(&"p".to_string()), Ok(None));
    assert_eq!(store.get_messages(&"p".to_string()), Ok(vec![]));
    assert_eq!(store.get_all_schedulers(), Ok(vec![]));
}

#[test]
fn saved_message_is_found_by_its_id() {
    let mut store = StoreClient::new();
    assert_eq!(store.save_message(&message("m1", "P", 0)), Ok(()));
    assert_eq!(store.save_message(&message("m2", "P", 1)), Ok(()));
    assert_eq!(store.get_message(&"m2".to_string()), Ok(message("m2", "P", 1)));
    assert_eq!(store.get_message(&"m1".to_string()), Ok(message("m1", "P", 0)));
    assert_eq!(store.get_message(&"m3".to_string()), Err(StoreErrorType::NotFound));
}

#[test]
fn first_of_two_messages_with_one_id_is_found() {
    let mut store = StoreClient::new();
    store.save_message(&message("m", "P", 0)).unwrap();
    store.save_message(&message("m", "Q", 5)).unwrap();
    assert_eq!(store.get_message(&"m".to_string()), Ok(message("m", "P", 0)));
}

#[test]
fn latest_message_is_the_last_saved_of_the_process() {
    let mut store = StoreClient::new();
    store.save_message(&message("m1", "P", 0)).unwrap();
    store.save_message(&message("x1", "Q", 0)).unwrap();
    store.save_message(&message("m2", "P", 1)).unwrap();
    store.save_message(&message("x2", "Q", 1)).unwrap();
    assert_eq!(store.get_latest_message(&"P".to_string()), Ok(Some(message("m2", "P", 1))));
    assert_eq!(store.get_latest_message(&"Q".to_string()), Ok(Some(message("x2", "Q", 1))));
    assert_eq!(store.get_latest_message(&"R".to_string()), Ok(None));
}

#[test]
fn messages_of_a_process_come_in_the_order_saved() {
    let mut store = StoreClient::new();
    store.save_message(&message("m1", "P", 0)).unwrap();
    store.save_message(&message("x1", "Q", 0)).unwrap();
    store.save_message(&message("m2", "P", 1)).unwrap();
    assert_eq!(
        store.get_messages(&"P".to_string()),
        Ok(vec![message("m1", "P", 0), message("m2", "P", 1)])
    );
    assert_eq!(store.get_messages(&"Q".to_string()), Ok(vec![message("x1", "Q", 0)]));
}

#[test]
fn saved_process_is_found_by_its_id() {
    let mut store = StoreClient::new();
    let process = Process { process_id: "P".to_string(), timestamp: 77 };
    assert_eq!(store.save_process(&process), Ok(()));
    assert_eq!(store.get_process(&"P".to_string()), Ok(process));
    assert_eq!(store.get_process(&"Q".to_string()), Err(StoreErrorType::NotFound));
}

#[test]
fn saved_schedulers_get_row_ids_from_one() {
    let mut store = StoreClient::new();
    assert_eq!(store.save_scheduler(&unit("a", 0)), Ok(()));
    assert_eq!(store.save_scheduler(&unit("b", 4)), Ok(()));
    let all = store.get_all_schedulers().unwrap();
    assert_eq!(
        all,
        vec![
            Scheduler { row_id: Some(1), url: "a".to_string(), process_count: 0 },
            Scheduler { row_id: Some(2), url: "b".to_string(), process_count: 4 },
        ]
    );
}

#[test]
fn save_scheduler_does_not_read_the_row_id_it_is_given() {
    let mut store = StoreClient::new();
    let given = Scheduler { row_id: Some(99), url: "a".to_string(), process_count: 1 };
    store.save_scheduler(&given).unwrap();
    assert_eq!(
        store.get_scheduler(&1),
        Ok(Scheduler { row_id: Some(1), url: "a".to_string(), process_count: 1 })
    );
    assert_eq!(store.get_scheduler(&99), Err(StoreErrorType::NotFound));
}

#[test]
fn scheduler_is_found_by_row_id_and_by_url() {
    let mut store = StoreClient::new();
    store.save_scheduler(&unit("a", 0)).unwrap();
    store.save_scheduler(&unit("b", 0)).unwrap();
    let b = Scheduler { row_id: Some(2), url: "b".to_string(), process_count: 0 };
    assert_eq!(store.get_scheduler(&2), Ok(b.clone()));
    assert_eq!(store.get_scheduler_by_url(&"b".to_string()), Ok(b));
    assert_eq!(store.get_scheduler(&0), Err(StoreErrorType::NotFound));
    assert_eq!(store.get_scheduler(&-1), Err(StoreErrorType::NotFound));
    assert_eq!(store.get_scheduler(&3), Err(StoreErrorType::NotFound));
    assert_eq!(store.get_scheduler_by_url(&"c".to_string()), Err(StoreErrorType::NotFound));
}

#[test]
fn update_scheduler_overwrites_the_row_it_names() {
    let mut store = StoreClient::new();
    store.save_scheduler(&unit("a", 0)).unwrap();
    store.save_scheduler(&unit("b", 0)).unwrap();
    let changed = Scheduler { row_id: Some(2), url: "b".to_string(), process_count: 9 };
    assert_eq!(store.update_scheduler(&changed), Ok(()));
    assert_eq!(store.get_scheduler(&2), Ok(changed));
    assert_eq!(
        store.get_scheduler(&1),
        Ok(Scheduler { row_id: Some(1), url: "a".to_string(), process_count: 0 })
    );
}

#[test]
fn update_scheduler_needs_a_row_that_exists() {
    let mut store = StoreClient::new();
    store.save_scheduler(&unit("a", 0)).unwrap();
    assert_eq!(store.update_scheduler(&unit("a", 1)), Err(StoreErrorType::NotFound));
    let missing = Scheduler { row_id: Some(2), url: "a".to_string(), process_count: 1 };
    assert_eq!(store.update_scheduler(&missing), Err(StoreErrorType::NotFound));
    let zero = Scheduler { row_id: Some(0), url: "a".to_string(), process_count: 1 };
    assert_eq!(store.update_scheduler(&zero), Err(StoreErrorType::NotFound));
    assert_eq!(
        store.get_all_schedulers(),
        Ok(vec![Scheduler { row_id: Some(1), url: "a".to_string(), process_count: 0 }])
    );
}

#[test]
fn saved_assignment_is_found_by_process_id() {
    let mut store = StoreClient::new();
    let first = ProcessScheduler { row_id: None, process_id: "P".to_string(), scheduler_row_id: 2 };
    let second = ProcessScheduler { row_id: None, process_id: "Q".to_string(), scheduler_row_id: 1 };
    assert_eq!(store.save_process_scheduler(&first), Ok(()));
    assert_eq!(store.save_process_scheduler(&second), Ok(()));
    assert_eq!(
        store.get_process_scheduler(&"Q".to_string()),
        Ok(ProcessScheduler { row_id: Some(2), process_id: "Q".to_string(), scheduler_row_id: 1 })
    );
    assert_eq!(
        store.get_process_scheduler(&"P".to_string()),
        Ok(ProcessScheduler { row_id: Some(1), process_id: "P".to_string(), scheduler_row_id: 2 })
    );
    assert_eq!(store.get_process_scheduler(&"R".to_string()), Err(StoreErrorType::NotFound));
}

use su::config::Config;
use su::flows::{init_schedulers, Deps, SchedulerEntry};
use su::router::Scheduler;
use su::store::StoreClient;

fn deps() -> Deps {
    Deps {
        data_store: StoreClient::new(),
        config: Config {
            mode: "router".to_string(),
            ao_process_id: "native".to_string(),
            su_wallet_path: String::new(),
            upload_node_url: String::new(),
            gateway_url: String::new(),
            scheduler_list_path: String::new(),
        },
    }
}

fn entries(urls: &[&str]) -> Vec<SchedulerEntry> {
    let mut list = Vec::new();
    for url in urls {
        list.push(SchedulerEntry { url: url.to_string() });
    }
    list
}

fn unit(row_id: i32, url: &str, process_count: i32) -> Scheduler {
    Scheduler { row_id: Some(row_id), url: url.to_string(), process_count }
}

#[test]
fn bootstrap_of_an_empty_store_saves_each_unit_with_no_process() {
    let mut deps = deps();
    assert_eq!(
        init_schedulers(&mut deps, &entries(&["a", "b"])),
        Ok("schedulers initialized".to_string())
    );
    assert_eq!(deps.data_store.get_all_schedulers(), Ok(vec![unit(1, "a", 0), unit(2, "b", 0)]));
}

#[test]
fn second_bootstrap_changes_nothing() {
    let mut deps = deps();
    init_schedulers(&mut deps, &entries(&["a", "b"])).unwrap();
    let first = deps.data_store.get_all_schedulers().unwrap();
    assert_eq!(
        init_schedulers(&mut deps, &entries(&["a", "b"])),
        Ok("schedulers initialized".to_string())
    );
    assert_eq!(deps.data_store.get_all_schedulers(), Ok(first));
}

#[test]
fn bootstrap_leaves_known_units_and_their_counts() {
    let mut deps = deps();
    deps.data_store
        .save_scheduler(&Scheduler { row_id: None, url: "b".to_string(), process_count: 5 })
        .unwrap();
    init_schedulers(&mut deps, &entries(&["a", "b", "c"])).unwrap();
    assert_eq!(
        deps.data_store.get_all_schedulers(),
        Ok(vec![unit(1, "b", 5), unit(2, "a", 0), unit(3, "c", 0)])
    );
}

#[test]
fn bootstrap_saves_a_unit_that_is_listed_twice_once() {
    let mut deps = deps();
    init_schedulers(&mut deps, &entries(&["a", "a", "b", "a"])).unwrap();
    assert_eq!(deps.data_store.get_all_schedulers(), Ok(vec![unit(1, "a", 0), unit(2, "b", 0)]));
}

#[test]
fn bootstrap_of_an_empty_list_changes_nothing() {
    let mut deps = deps();
    assert_eq!(init_schedulers(&mut deps, &entries(&[])), Ok("schedulers initialized".to_string()));
    assert_eq!(deps.data_store.get_all_schedulers(), Ok(vec![]));
}

#[test]
fn bootstrap_touches_no_other_table() {
    let mut deps = deps();
    init_schedulers(&mut deps, &entries(&["a"])).unwrap();
    assert_eq!(deps.data_store.get_messages(&"a".to_string()), Ok(vec![]));
    assert!(deps.data_store.get_process(&"a".to_string()).is_err());
    assert!(deps.data_store.get_process_scheduler(&"a".to_string()).is_err());
    assert_eq!(deps.config.mode, "router");
}

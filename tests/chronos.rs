use chronos::catalog::{flatten, ProjectTask, RemoteCustomer, RemoteProject, RemoteTask};
use chronos::config::{Config, ConfigError, StoreFailure};
use chronos::favorite::Favorite;
use chronos::sync::{cache_open_failure, synchronize, BookingTarget, ChronosError};

fn task(id: usize, label: &str) -> RemoteTask {
    RemoteTask { id, label: label.to_string() }
}

fn project(id: usize, name: &str, client: Option<usize>, tasks: Option<Vec<RemoteTask>>) -> RemoteProject {
    RemoteProject { id, name: name.to_string(), client, tasks }
}

fn customer(id: usize, name: &str) -> RemoteCustomer {
    RemoteCustomer { id, name: name.to_string() }
}

fn entry(display: &str, project: usize, task: usize) -> ProjectTask {
    ProjectTask { display: display.to_string(), project, task }
}

fn favorites() -> Option<Vec<Favorite>> {
    Some(vec![Favorite { project: 1, task: 100, duration: Some(30), comment: None }])
}

#[test]
fn env_secret_overrides_file_secret() {
    let r = Config::new(
        Some("from-file".to_string()),
        "bob".to_string(),
        favorites(),
        Some("from-env".to_string()),
    );
    let c = r.unwrap();
    assert_eq!(c.password, Some("from-env".to_string()));
    assert_eq!(c.user_name, "bob");
    assert_eq!(c.favorites, favorites());
}

#[test]
fn empty_env_secret_still_overrides() {
    let c = Config::new(Some("from-file".to_string()), "bob".to_string(), None, Some(String::new()))
        .unwrap();
    assert_eq!(c.password, Some(String::new()));
}

#[test]
fn env_secret_used_without_file_secret() {
    let c = Config::new(None, "bob".to_string(), None, Some("from-env".to_string())).unwrap();
    assert_eq!(c.password, Some("from-env".to_string()));
}

#[test]
fn file_secret_used_without_env() {
    let c = Config::new(Some("from-file".to_string()), "bob".to_string(), favorites(), None).unwrap();
    assert_eq!(c.password, Some("from-file".to_string()));
    assert_eq!(c.favorites, favorites());
}

#[test]
fn missing_store_entry_for_alice_is_no_password() {
    let r = Config::from_secret_store("alice".to_string(), None, Err(StoreFailure::NoEntry));
    assert_eq!(r, Err(ConfigError::NoPassword));
}

#[test]
fn store_failure_carries_user_and_cause() {
    let failure = StoreFailure::Failed { message: "locked".to_string() };
    let r = Config::from_secret_store("alice".to_string(), None, Err(failure.clone()));
    assert_eq!(r, Err(ConfigError::GetPassword { user: "alice".to_string(), failure }));
}

#[test]
fn stored_secret_is_used() {
    let c = Config::from_secret_store("alice".to_string(), favorites(), Ok("s3".to_string())).unwrap();
    assert_eq!(c.password, Some("s3".to_string()));
    assert_eq!(c.user_name, "alice");
    assert_eq!(c.favorites, favorites());
}

#[test]
fn saved_secret_updates_config() {
    let mut c = Config { password: None, user_name: "alice".to_string(), favorites: None };
    assert_eq!(c.record_saved("new-secret", Ok(())), Ok(()));
    assert_eq!(c.password, Some("new-secret".to_string()));
    assert_eq!(c.user_name, "alice");
}

#[test]
fn failed_save_leaves_config_unchanged() {
    let mut c = Config { password: Some("old".to_string()), user_name: "alice".to_string(), favorites: None };
    let failure = StoreFailure::Failed { message: "denied".to_string() };
    let r = c.record_saved("new-secret", Err(failure.clone()));
    assert_eq!(r, Err(ConfigError::SetPasswordFromEntry { failure }));
    assert_eq!(c.password, Some("old".to_string()));
}

#[test]
fn two_projects_scenario() {
    let projects = vec![
        project(1, "Website", Some(10), Some(vec![task(100, "Design")])),
        project(2, "Internal Ops", None, Some(vec![task(200, "Meetings")])),
    ];
    let customers = vec![customer(10, "Acme")];
    let r = synchronize(Ok(projects), Ok(customers)).unwrap();
    assert_eq!(
        r,
        vec![
            entry("Acme / Website / Design", 1, 100),
            entry("Internal / Internal Ops / Meetings", 2, 200),
        ]
    );
}

#[test]
fn entry_count_is_task_total() {
    let projects = vec![
        project(1, "A", None, Some(vec![task(10, "x"), task(11, "y"), task(12, "z")])),
        project(2, "B", None, Some(vec![])),
        project(3, "C", None, None),
        project(4, "D", None, Some(vec![task(10, "x")])),
    ];
    let r = flatten(&projects, &vec![]);
    assert_eq!(r.len(), 4);
    let pairs: Vec<(usize, usize)> = r.iter().map(|e| (e.project, e.task)).collect();
    assert_eq!(pairs, vec![(1, 10), (1, 11), (1, 12), (4, 10)]);
}

#[test]
fn no_projects_give_no_entries() {
    assert!(flatten(&vec![], &vec![customer(1, "Acme")]).is_empty());
}

#[test]
fn unknown_client_is_missing_customer() {
    let projects = vec![project(5, "Site", Some(99), Some(vec![task(1, "Build")]))];
    let r = flatten(&projects, &vec![customer(10, "Acme")]);
    assert_eq!(r, vec![entry("Missing Customer / Site / Build", 5, 1)]);
}

#[test]
fn no_client_is_internal() {
    let projects = vec![project(5, "Site", None, Some(vec![task(1, "Build")]))];
    let r = flatten(&projects, &vec![customer(10, "Acme")]);
    assert_eq!(r, vec![entry("Internal / Site / Build", 5, 1)]);
}

#[test]
fn last_customer_with_an_id_wins() {
    let projects = vec![project(5, "Site", Some(10), Some(vec![task(1, "Build")]))];
    let customers = vec![customer(10, "Old"), customer(11, "Other"), customer(10, "New")];
    let r = flatten(&projects, &customers);
    assert_eq!(r, vec![entry("New / Site / Build", 5, 1)]);
}

#[test]
fn failed_project_listing_is_tagged() {
    let r = synchronize(Err("timeout".to_string()), Err("refused".to_string()));
    assert_eq!(
        r,
        Err(ChronosError::CoffeeCup { message: "timeout".to_string(), action: "list projects".to_string() })
    );
}

#[test]
fn failed_customer_listing_is_tagged() {
    let r = synchronize(Ok(vec![]), Err("refused".to_string()));
    assert_eq!(
        r,
        Err(ChronosError::CoffeeCup { message: "refused".to_string(), action: "list customers".to_string() })
    );
}

#[test]
fn booking_target_keeps_project_and_task_apart() {
    let t = BookingTarget::from_entry(&entry("Acme / Website / Design", 1, 100));
    assert_eq!(t, BookingTarget { task: 100, project: 1 });
}

#[test]
fn missing_cache_file_is_not_synchronized() {
    let e = cache_open_failure("./config/projects.json".to_string(), true, "No such file".to_string());
    assert_eq!(e, ChronosError::NotSynchronized { filename: "./config/projects.json".to_string() });
}

#[test]
fn other_cache_open_failure_keeps_cause() {
    let e = cache_open_failure("p.json".to_string(), false, "permission denied".to_string());
    assert_eq!(
        e,
        ChronosError::OpenProjectsFile { message: "permission denied".to_string(), filename: "p.json".to_string() }
    );
}

use dcr::dashboard::{App, DockerEvent};
use dcr::queue::{contains_name, QueueType, Queued};
use dcr::registry::ServiceSpec;

fn spec(name: &str) -> ServiceSpec {
    ServiceSpec { name: name.to_string(), container_name: None }
}

fn app_with(names: &[&str]) -> App {
    App::new(
        "proj".to_string(),
        names.iter().map(|n| spec(n)).collect(),
        Vec::new(),
        "docker-compose.yml".to_string(),
        "/srv/proj/docker-compose.yml".to_string(),
        "27.0".to_string(),
    )
}

fn live(names: &[&str]) -> Vec<String> {
    names.iter().map(|n| n.to_string()).collect()
}

#[test]
fn queued_start_cleared_when_running() {
    let mut q = Queued::new();
    q.queue(3, "proj-api-1".to_string());
    q.reconcile(&live(&["proj-api-1"]), QueueType::Start);
    assert!(!q.contains(3));
    assert!(q.state.is_empty());
    assert!(q.names.get(&3).is_none());
}

#[test]
fn queued_start_kept_while_not_running() {
    let mut q = Queued::new();
    q.queue(0, "proj-web-1".to_string());
    q.queue(1, "proj-db-1".to_string());
    q.reconcile(&live(&["proj-db-1"]), QueueType::Start);
    assert_eq!(q.state, vec![0]);
    assert_eq!(q.names.get(&0).map(|s| s.as_str()), Some("proj-web-1"));
}

#[test]
fn queued_stop_cleared_when_not_running() {
    let mut q = Queued::new();
    q.queue(2, "proj-cache-1".to_string());
    q.reconcile(&Vec::new(), QueueType::Stop);
    assert!(!q.contains(2));
}

#[test]
fn queued_stop_kept_while_running() {
    let mut q = Queued::new();
    q.queue(2, "proj-cache-1".to_string());
    q.reconcile(&live(&["proj-cache-1"]), QueueType::Stop);
    assert!(q.contains(2));
    assert_eq!(q.state, vec![2]);
}

#[test]
fn names_match_only_whole() {
    let mut q = Queued::new();
    q.queue(0, "proj-web-1".to_string());
    q.reconcile(&live(&["proj-web-10", "proj-web", "xproj-web-1"]), QueueType::Start);
    assert!(q.contains(0));
    assert!(!contains_name(&live(&["proj-web-10"]), &"proj-web-1".to_string()));
    assert!(contains_name(&live(&["a", "proj-web-1"]), &"proj-web-1".to_string()));
}

#[test]
fn queue_twice_same_as_once() {
    let mut once = Queued::new();
    once.queue(1, "proj-db-1".to_string());
    let mut twice = Queued::new();
    twice.queue(1, "proj-db-1".to_string());
    twice.queue(1, "proj-db-1".to_string());
    assert_eq!(once.state, twice.state);
    assert_eq!(once.names, twice.names);
    assert_eq!(twice.state, vec![1]);
}

#[test]
fn queue_keeps_order_without_duplicates() {
    let mut q = Queued::new();
    q.queue(0, "a".to_string());
    q.queue(1, "b".to_string());
    q.queue(0, "a2".to_string());
    assert_eq!(q.state, vec![0, 1]);
    assert_eq!(q.names.get(&0).map(|s| s.as_str()), Some("a2"));
}

#[test]
fn queue_all_start_replaces_prior_contents() {
    let mut app = app_with(&["web", "db", "cache"]);
    app.queue_index(QueueType::Start, 1);
    app.queue_all(QueueType::Start);
    assert_eq!(app.compose_content.start_queued.state, vec![0, 1, 2]);
    assert_eq!(app.compose_content.start_queued.names.len(), 3);
    assert_eq!(
        app.compose_content.start_queued.names.get(&2).map(|s| s.as_str()),
        Some("proj-cache-1")
    );
    assert!(app.compose_content.stop_queued.state.is_empty());
}

#[test]
fn queue_all_on_empty_manifest() {
    let mut app = app_with(&[]);
    app.queue_all(QueueType::Start);
    assert!(app.compose_content.start_queued.state.is_empty());
}

#[test]
fn queue_index_out_of_range_changes_nothing() {
    let mut app = app_with(&["web"]);
    app.queue_index(QueueType::Start, 5);
    assert!(app.compose_content.start_queued.state.is_empty());
}

#[test]
fn refresh_clears_started_service() {
    let mut app = app_with(&["web", "db"]);
    app.queue(QueueType::Start);
    assert_eq!(app.compose_content.start_queued.state, vec![0]);
    let starts = app.refresh(&live(&["/proj-web-1"]));
    assert!(app.compose_content.start_queued.state.is_empty());
    assert_eq!(app.running_container_names, vec!["proj-web-1".to_string()]);
    assert_eq!(starts.len(), 2);
    app.fetch_all_container_info::<String>(vec![
        Ok(bollard::models::ContainerInspectResponse::default()),
        Err("no such container".to_string()),
    ]);
    assert!(app.info(0).is_some());
    assert!(app.info(1).is_none());
}

#[test]
fn stop_all_then_one_still_running() {
    let mut app = app_with(&["web", "db", "cache"]);
    app.queue_all(QueueType::Stop);
    app.refresh(&live(&["proj-db-1"]));
    assert_eq!(app.compose_content.stop_queued.state, vec![1]);
}

#[test]
fn failed_command_clears_starts_only() {
    let mut app = app_with(&["web", "db", "cache"]);
    app.compose_content.selected = Some(2);
    app.queue(QueueType::Start);
    app.compose_content.selected = Some(0);
    app.queue(QueueType::Stop);
    let refresh = app.on_docker_event(DockerEvent::ErrorLog("exit status 1".to_string()));
    assert!(!refresh);
    assert!(app.compose_content.start_queued.state.is_empty());
    assert!(!app.compose_content.start_queued.contains(2));
    assert_eq!(app.compose_content.error_msg.as_deref(), Some("exit status 1"));
    assert!(app.show_popup);
    assert_eq!(app.compose_content.stop_queued.state, vec![0]);
}

#[test]
fn refresh_event_asks_for_refresh() {
    let mut app = app_with(&["web"]);
    assert!(app.on_docker_event(DockerEvent::Refresh));
    assert!(!app.show_popup);
}

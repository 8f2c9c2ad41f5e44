use dcr::dashboard::{wipe_errors, App};
use dcr::modifier::{DockerModifier, ABORT_ON_CONTAINER_FAILURE, BUILD, NO_DEPS, PULL_ALWAYS};
use dcr::registry::{container_name_mapping, resolve_container_name, running_names, trim_container_name, ServiceSpec};

fn app_with(specs: Vec<ServiceSpec>) -> App {
    App::new(
        "proj".to_string(),
        specs,
        Vec::new(),
        "compose.yml".to_string(),
        "/srv/proj/compose.yml".to_string(),
        "27.0".to_string(),
    )
}

fn plain(name: &str) -> ServiceSpec {
    ServiceSpec { name: name.to_string(), container_name: None }
}

#[test]
fn to_args_in_flag_order() {
    assert!(DockerModifier::empty().to_args().is_empty());
    let m = DockerModifier::from_bits_truncate(BUILD | PULL_ALWAYS | NO_DEPS);
    assert_eq!(m.to_args(), vec!["--build", "--pull", "always", "--no-deps"]);
    let all = DockerModifier::from_bits_truncate(0xff);
    assert_eq!(all.bits(), 62);
    assert_eq!(
        all.to_args(),
        vec!["--build", "--force-recreate", "--pull", "always", "--abort-on-container-exit", "--no-deps"]
    );
    assert!(all.contains(ABORT_ON_CONTAINER_FAILURE));
}

#[test]
fn toggle_key_flips_flags() {
    let mut m = DockerModifier::empty();
    m.toggle_key('1');
    assert_eq!(m.bits(), BUILD);
    m.toggle_key('5');
    assert_eq!(m.to_args(), vec!["--build", "--no-deps"]);
    m.toggle_key('1');
    assert_eq!(m.bits(), NO_DEPS);
    m.toggle_key('9');
    assert_eq!(m.bits(), NO_DEPS);
}

#[test]
fn container_names_resolve() {
    let explicit = ServiceSpec { name: "db".to_string(), container_name: Some("my-db".to_string()) };
    assert_eq!(resolve_container_name("proj", &plain("web")), "proj-web-1");
    assert_eq!(resolve_container_name("proj", &explicit), "my-db");
    let map = container_name_mapping("shop", &vec![plain("api"), explicit]);
    assert_eq!(map.len(), 2);
    assert_eq!(map.get(&0).map(|s| s.as_str()), Some("shop-api-1"));
    assert_eq!(map.get(&1).map(|s| s.as_str()), Some("my-db"));
}

#[test]
fn listed_names_lose_leading_slashes() {
    assert_eq!(trim_container_name("/proj-web-1"), "proj-web-1");
    assert_eq!(trim_container_name("//a/b"), "a/b");
    assert_eq!(trim_container_name("plain"), "plain");
    assert_eq!(trim_container_name(""), "");
    assert_eq!(running_names(&vec!["/x".to_string(), "y".to_string()]), vec!["x".to_string(), "y".to_string()]);
}

#[test]
fn orchestrator_commands() {
    let mut app = app_with(vec![plain("web"), plain("db")]);
    app.down();
    assert_eq!(app.compose_content.selected, Some(1));
    app.toggle_modifier('1');
    assert_eq!(app.dc(true).unwrap(), vec!["compose", "-f", "compose.yml", "up", "db", "-d", "--build"]);
    assert_eq!(app.dc(false).unwrap(), vec!["compose", "-f", "compose.yml", "down", "db"]);
    assert_eq!(app.all(), vec!["compose", "-f", "compose.yml", "up", "-d", "--build"]);
    assert_eq!(app.down_all(), vec!["compose", "-f", "compose.yml", "down"]);
    let live = app.restart_log_streaming().unwrap();
    let (args, cancelled) = app.restart().unwrap();
    assert_eq!(args, vec!["compose", "-f", "compose.yml", "restart", "db"]);
    assert_eq!(cancelled, Some(live.task));
    assert_eq!(app.compose_content.logs.active_task(1), None);
    assert_eq!(app.container_names(), vec!["proj-web-1".to_string(), "proj-db-1".to_string()]);
    assert_eq!(app.wipe(), vec!["proj-web-1".to_string(), "proj-db-1".to_string()]);
    assert_eq!(app.remove_container(5), Some("proj-db-1".to_string()));
    assert_eq!(app.compose_content.logs.streams[1].resume_since, Some(5));
}

#[test]
fn no_selection_no_command() {
    let mut app = app_with(vec![]);
    assert_eq!(app.compose_content.selected, Some(0));
    assert!(app.dc(true).is_none());
    assert!(app.restart().is_none());
    assert!(app.remove_container(1).is_none());
    assert!(app.wipe().is_empty());
}

#[test]
fn wipe_errors_joined_by_line() {
    assert_eq!(wipe_errors(&vec![]), None);
    assert_eq!(wipe_errors(&vec!["a".to_string()]), Some("a".to_string()));
    assert_eq!(wipe_errors(&vec!["a".to_string(), "b".to_string(), "c".to_string()]), Some("a\nb\nc".to_string()));
}

#[test]
fn selection_moves() {
    let mut app = app_with(vec![plain("a"), plain("b"), plain("c")]);
    app.up();
    assert_eq!(app.compose_content.selected, Some(0));
    app.down();
    app.down();
    app.down();
    assert_eq!(app.compose_content.selected, Some(2));
    app.up_first();
    assert_eq!(app.compose_content.selected, Some(0));
    app.down_last();
    assert_eq!(app.compose_content.selected, Some(2));
    app.compose_content.selected = None;
    app.down();
    assert_eq!(app.compose_content.selected, None);
    app.up();
    assert_eq!(app.compose_content.selected, Some(2));
}

#[test]
fn start_all_streams_every_service() {
    let mut app = app_with(vec![plain("a"), plain("b")]);
    let starts = app.start_all_log_streaming();
    assert_eq!(starts.len(), 2);
    assert_eq!(starts[1].index, 1);
    assert_eq!(starts[1].container_name, "proj-b-1");
    assert_eq!(starts[1].task, 1);
    let again = app.start_all_log_streaming();
    assert_eq!(again[0].replaced, Some(0));
    assert_eq!(app.compose_content.logs.active_task(0), Some(2));
    let one = app.restart_log_streaming().unwrap();
    assert_eq!(one.index, 0);
    assert_eq!(one.replaced, Some(2));
}

#[test]
fn clear_log_restarts_from_now() {
    let mut app = app_with(vec![plain("a")]);
    let s = app.restart_log_streaming().unwrap();
    app.compose_content.logs.append(0, s.task, "old".to_string());
    let c = app.clear_log_at(99).unwrap();
    assert_eq!(c.replaced, Some(s.task));
    assert_eq!(c.options.since, Some(99));
    assert!(app.compose_content.logs.streams[0].buffer.is_empty());
    let now = app.clear_current_log().unwrap();
    assert!(now.options.since.unwrap() > 1_600_000_000);
}

#[test]
fn wipe_cancels_every_stream() {
    let mut app = app_with(vec![plain("a"), plain("b")]);
    let starts = app.start_all_log_streaming();
    assert_eq!(starts.len(), 2);
    let names = app.wipe();
    assert_eq!(names.len(), 2);
    assert_eq!(app.compose_content.logs.active_task(0), None);
    assert_eq!(app.compose_content.logs.active_task(1), None);
    assert!(!app.compose_content.logs.append(0, starts[0].task, "late".to_string()));
}

#[test]
fn restart_drops_lines_and_task() {
    let mut app = app_with(vec![plain("a")]);
    let s = app.restart_log_streaming().unwrap();
    app.compose_content.logs.append(0, s.task, "before".to_string());
    let (_, cancelled) = app.restart().unwrap();
    assert_eq!(cancelled, Some(s.task));
    assert!(app.compose_content.logs.streams[0].buffer.is_empty());
    assert!(!app.compose_content.logs.append(0, s.task, "after".to_string()));
}

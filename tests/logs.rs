use dcr::logs::{options_for, LogSupervisor, StreamOptions};

#[test]
fn clear_empties_buffer_and_refuses_earlier_task() {
    let mut sup = LogSupervisor::new(2);
    let first = sup.start_stream(0, "proj-web-1".to_string()).unwrap();
    assert!(sup.append(0, first.task, "old line".to_string()));
    assert_eq!(sup.streams[0].buffer, vec!["old line".to_string()]);
    let cancelled = sup.clear(0, 1_700_000_000);
    assert_eq!(cancelled, Some(first.task));
    assert!(sup.streams[0].buffer.is_empty());
    assert!(!sup.append(0, first.task, "late old line".to_string()));
    assert!(sup.streams[0].buffer.is_empty());
    let second = sup.start_stream(0, "proj-web-1".to_string()).unwrap();
    assert_eq!(second.options.since, Some(1_700_000_000));
    assert_eq!(second.replaced, None);
    assert!(!sup.append(0, first.task, "late old line".to_string()));
    assert!(sup.append(0, second.task, "new line".to_string()));
    assert_eq!(sup.streams[0].buffer, vec!["new line".to_string()]);
}

#[test]
fn starting_twice_leaves_one_task() {
    let mut sup = LogSupervisor::new(3);
    let a = sup.start_stream(1, "proj-db-1".to_string()).unwrap();
    let b = sup.start_stream(1, "proj-db-1".to_string()).unwrap();
    assert_ne!(a.task, b.task);
    assert_eq!(b.replaced, Some(a.task));
    assert_eq!(sup.active_task(1), Some(b.task));
    assert!(!sup.append(1, a.task, "x".to_string()));
    assert!(sup.append(1, b.task, "y".to_string()));
    assert_eq!(sup.streams[1].buffer.len(), 1);
}

#[test]
fn start_stream_out_of_range() {
    let mut sup = LogSupervisor::new(1);
    assert!(sup.start_stream(4, "x".to_string()).is_none());
    assert_eq!(sup.next_task, 0);
}

#[test]
fn start_stream_ids_exhausted() {
    let mut sup = LogSupervisor::new(1);
    sup.next_task = u64::MAX;
    assert!(sup.start_stream(0, "x".to_string()).is_none());
    assert_eq!(sup.active_task(0), None);
}

#[test]
fn stop_cancels_live_task() {
    let mut sup = LogSupervisor::new(1);
    let a = sup.start_stream(0, "x".to_string()).unwrap();
    assert_eq!(sup.stop(0), Some(a.task));
    assert_eq!(sup.active_task(0), None);
    assert!(!sup.append(0, a.task, "z".to_string()));
    assert_eq!(sup.stop(0), None);
}

#[test]
fn drop_lines_keeps_task() {
    let mut sup = LogSupervisor::new(1);
    let a = sup.start_stream(0, "x".to_string()).unwrap();
    sup.append(0, a.task, "1".to_string());
    sup.drop_lines(0);
    assert!(sup.streams[0].buffer.is_empty());
    assert!(sup.append(0, a.task, "2".to_string()));
}

#[test]
fn stream_options_values() {
    let d = StreamOptions::default();
    assert_eq!(d.tail, "50");
    assert!(!d.all);
    assert_eq!(d.since, None);
    assert_eq!(d.logs_since(), 0);
    assert_eq!(d.logs_tail(), "50");
    let t = StreamOptions::from_unix_timestamp(42);
    assert_eq!(t.since, Some(42));
    assert_eq!(t.tail, "50");
    assert_eq!(t.logs_since(), 42);
    let all = StreamOptions { tail: "10".to_string(), all: true, since: None };
    assert_eq!(all.logs_tail(), "all");
    assert_eq!(options_for(Some(7)).since, Some(7));
    assert_eq!(options_for(None).since, None);
}

use endpoint_server::viewer::{AppMode, AppUi, EndpointInfo, ServerInfo, MAX_LOGS};

fn viewer_with(messages: &[&str]) -> AppUi {
    let mut ui = AppUi::new();
    for (at, message) in messages.iter().enumerate() {
        ui.add_log_at(message.to_string(), at as u64);
    }
    ui
}

#[test]
fn new_viewer_state() {
    let ui = AppUi::new();
    assert!(ui.logs.is_empty());
    assert!(ui.filtered_logs.is_empty());
    assert_eq!(ui.scroll, 0);
    assert_eq!(ui.filter, "");
    assert_eq!(ui.filter_input, "");
    assert_eq!(ui.mode, AppMode::Normal);
    assert!(ui.show_timestamps);
    assert_eq!(ui.selected_tab, 0);
    assert!(ui.server_info.is_none());
}

#[test]
fn add_log_at_appends_and_shows_the_entry() {
    let mut ui = AppUi::new();
    ui.add_log_at("first".to_string(), 10);
    ui.add_log_at("second".to_string(), 20);
    assert_eq!(ui.logs.len(), 2);
    assert_eq!(ui.logs[0].message, "first");
    assert_eq!(ui.logs[0].timestamp, 10);
    assert_eq!(ui.logs[1].message, "second");
    assert_eq!(ui.logs[1].timestamp, 20);
    assert_eq!(ui.filtered_logs, vec![0, 1]);
    assert_eq!(ui.scroll, 0);
}

#[test]
fn add_log_stamps_the_entry_with_a_time() {
    let mut ui = AppUi::new();
    ui.add_log("now".to_string());
    assert_eq!(ui.logs.len(), 1);
    assert_eq!(ui.logs[0].message, "now");
    assert!(ui.logs[0].timestamp > 1_600_000_000);
    assert_eq!(ui.filtered_logs, vec![0]);
}

#[test]
fn the_oldest_entry_leaves_beyond_the_limit() {
    let mut ui = AppUi::new();
    for n in 0..MAX_LOGS {
        ui.add_log_at(format!("line {}", n), n as u64);
    }
    assert_eq!(ui.logs.len(), 1000);
    assert_eq!(ui.logs[0].message, "line 0");
    ui.add_log_at("line 1000".to_string(), 1000);
    assert_eq!(ui.logs.len(), 1000);
    assert_eq!(ui.logs[0].message, "line 1");
    assert_eq!(ui.logs[999].message, "line 1000");
    assert_eq!(ui.filtered_logs.len(), 1000);
    assert_eq!(ui.filtered_logs[0], 0);
    assert_eq!(ui.filtered_logs[999], 999);
}

#[test]
fn empty_filter_shows_everything() {
    let mut ui = viewer_with(&["a", "b", "c"]);
    ui.filtered_logs = vec![2];
    ui.update_filtered_logs();
    assert_eq!(ui.filtered_logs, vec![0, 1, 2]);
}

#[test]
fn filter_matches_without_regard_to_case() {
    let mut ui = viewer_with(&["Server ERROR one", "all fine", "error two", "Warning"]);
    ui.filter = "Error".to_string();
    ui.update_filtered_logs();
    assert_eq!(ui.filtered_logs, vec![0, 2]);
    ui.filter = "ERR".to_string();
    ui.update_filtered_logs();
    assert_eq!(ui.filtered_logs, vec![0, 2]);
    ui.filter = "n".to_string();
    ui.update_filtered_logs();
    assert_eq!(ui.filtered_logs, vec![0, 1, 3]);
}

#[test]
fn filter_that_matches_nothing_leaves_the_selection() {
    let mut ui = viewer_with(&["a", "b", "c"]);
    ui.scroll = 2;
    ui.filter = "zzz".to_string();
    ui.update_filtered_logs();
    assert!(ui.filtered_logs.is_empty());
    assert_eq!(ui.scroll, 2);
}

#[test]
fn filter_longer_than_the_message_does_not_match() {
    let mut ui = viewer_with(&["ab", "abc"]);
    ui.filter = "abc".to_string();
    ui.update_filtered_logs();
    assert_eq!(ui.filtered_logs, vec![1]);
}

#[test]
fn selection_is_moved_back_into_range() {
    let mut ui = viewer_with(&["apple", "banana", "avocado", "cherry"]);
    ui.scroll = 3;
    ui.filter = "a".to_string();
    ui.update_filtered_logs();
    assert_eq!(ui.filtered_logs, vec![0, 1, 2]);
    assert_eq!(ui.scroll, 2);
    ui.scroll = 1;
    ui.update_filtered_logs();
    assert_eq!(ui.scroll, 1);
    ui.scroll = 100;
    ui.filter = "cherry".to_string();
    ui.update_filtered_logs();
    assert_eq!(ui.filtered_logs, vec![3]);
    assert_eq!(ui.scroll, 0);
}

#[test]
fn new_entries_are_filtered_as_they_arrive() {
    let mut ui = AppUi::new();
    ui.filter = "get".to_string();
    ui.add_log_at("Received GET request to /x".to_string(), 1);
    ui.add_log_at("Received POST request to /y".to_string(), 2);
    ui.add_log_at("Configured endpoint: get /z".to_string(), 3);
    assert_eq!(ui.filtered_logs, vec![0, 2]);
}

#[test]
fn apply_filter_takes_the_typed_filter() {
    let mut ui = viewer_with(&["one", "two", "three"]);
    ui.mode = AppMode::Filter;
    ui.filter_input = "T".to_string();
    ui.scroll = 2;
    ui.apply_filter();
    assert_eq!(ui.filter, "T");
    assert_eq!(ui.filter_input, "T");
    assert_eq!(ui.filtered_logs, vec![1, 2]);
    assert_eq!(ui.scroll, 1);
    assert_eq!(ui.mode, AppMode::Normal);
}

#[test]
fn apply_filter_with_an_empty_input_removes_the_filter() {
    let mut ui = viewer_with(&["one", "two"]);
    ui.filter = "one".to_string();
    ui.update_filtered_logs();
    assert_eq!(ui.filtered_logs, vec![0]);
    ui.filter_input = String::new();
    ui.apply_filter();
    assert_eq!(ui.filter, "");
    assert_eq!(ui.filtered_logs, vec![0, 1]);
}

#[test]
fn clear_logs_keeps_the_rest() {
    let mut ui = viewer_with(&["one", "two"]);
    ui.filter = "o".to_string();
    ui.filter_input = "typed".to_string();
    ui.scroll = 1;
    ui.selected_tab = 1;
    ui.show_timestamps = false;
    ui.mode = AppMode::Help;
    ui.clear_logs();
    assert!(ui.logs.is_empty());
    assert!(ui.filtered_logs.is_empty());
    assert_eq!(ui.scroll, 0);
    assert_eq!(ui.filter, "o");
    assert_eq!(ui.filter_input, "typed");
    assert_eq!(ui.selected_tab, 1);
    assert!(!ui.show_timestamps);
    assert_eq!(ui.mode, AppMode::Help);
}

#[test]
fn format_timestamp_gives_the_time_of_day() {
    let ui = AppUi::new();
    assert_eq!(ui.format_timestamp(0), "00:00:00");
    assert_eq!(ui.format_timestamp(59), "00:00:59");
    assert_eq!(ui.format_timestamp(60), "00:01:00");
    assert_eq!(ui.format_timestamp(3661), "01:01:01");
    assert_eq!(ui.format_timestamp(45_296), "12:34:56");
    assert_eq!(ui.format_timestamp(86_399), "23:59:59");
    assert_eq!(ui.format_timestamp(86_400), "00:00:00");
    assert_eq!(ui.format_timestamp(1_700_000_000), "22:13:20");
    assert_eq!(ui.format_timestamp(u64::MAX), "07:00:15");
}

#[test]
fn server_info_can_be_cloned() {
    let info = ServerInfo {
        host: "localhost".to_string(),
        port: 8080,
        endpoints: vec![EndpointInfo {
            path: "/a".to_string(),
            method: "GET".to_string(),
            description: "d".to_string(),
        }],
    };
    let copy = info.clone();
    assert_eq!(copy.host, "localhost");
    assert_eq!(copy.port, 8080);
    assert_eq!(copy.endpoints.len(), 1);
    assert_eq!(copy.endpoints[0].path, "/a");
    assert_eq!(copy.endpoints[0].method, "GET");
    assert_eq!(copy.endpoints[0].description, "d");
}

use endpoint_server::screen::{help_area, help_text, Area, Overlay, Panel};
use endpoint_server::viewer::{AppMode, AppUi, EndpointInfo, ServerInfo};

fn sample_viewer() -> AppUi {
    let mut ui = AppUi::new();
    ui.add_log_at("Server starting".to_string(), 3661);
    ui.add_log_at("Received GET request to /x".to_string(), 3662);
    ui.add_log_at("Received POST request to /y".to_string(), 86_399);
    ui
}

#[test]
fn log_lines_with_timestamps() {
    let ui = sample_viewer();
    assert_eq!(
        ui.log_lines(),
        vec![
            "[01:01:01] Server starting".to_string(),
            "[01:01:02] Received GET request to /x".to_string(),
            "[23:59:59] Received POST request to /y".to_string(),
        ]
    );
}

#[test]
fn log_lines_without_timestamps_and_with_a_filter() {
    let mut ui = sample_viewer();
    ui.show_timestamps = false;
    ui.filter = "received".to_string();
    ui.update_filtered_logs();
    assert_eq!(
        ui.log_lines(),
        vec!["Received GET request to /x".to_string(), "Received POST request to /y".to_string()]
    );
    assert_eq!(ui.log_line(0), "Server starting");
}

#[test]
fn logs_title_counts_visible_and_all() {
    let mut ui = sample_viewer();
    assert_eq!(ui.logs_title(), "Logs (3/3)");
    ui.filter = "post".to_string();
    ui.update_filtered_logs();
    assert_eq!(ui.logs_title(), "Logs (1/3)");
    assert_eq!(AppUi::new().logs_title(), "Logs (0/0)");
    let mut many = AppUi::new();
    for n in 0..123u64 {
        many.add_log_at("x".to_string(), n);
    }
    assert_eq!(many.logs_title(), "Logs (123/123)");
}

#[test]
fn selected_position() {
    let mut ui = sample_viewer();
    ui.scroll = 2;
    assert_eq!(ui.selected(), Some(2));
    assert_eq!(AppUi::new().selected(), None);
}

#[test]
fn export_text_of_the_visible_lines() {
    let mut ui = sample_viewer();
    assert_eq!(
        ui.export_text(),
        "Server Logs Export\n===================\n\n[01:01:01] Server starting\n[01:01:02] Received GET request to /x\n[23:59:59] Received POST request to /y\n"
    );
    ui.show_timestamps = false;
    ui.filter = "GET".to_string();
    ui.update_filtered_logs();
    assert_eq!(
        ui.export_text(),
        "Server Logs Export\n===================\n\nReceived GET request to /x\n"
    );
    assert_eq!(AppUi::new().export_text(), "Server Logs Export\n===================\n\n");
}

#[test]
fn status_line_of_each_mode() {
    let mut ui = sample_viewer();
    assert_eq!(ui.status_line(), "Logs Tab | Logs: 3 | Filter: None | Press 'h' for help");
    ui.filter = "abc".to_string();
    assert_eq!(ui.status_line(), "Logs Tab | Logs: 3 | Filter: abc | Press 'h' for help");
    ui.selected_tab = 1;
    assert_eq!(ui.status_line(), "Server Info Tab | Server: localhost:3000 | Press 'h' for help");
    ui.selected_tab = 2;
    assert_eq!(ui.status_line(), "Press 'h' for help");
    ui.mode = AppMode::Help;
    assert_eq!(ui.status_line(), "Help Mode | Press Esc to return");
    ui.mode = AppMode::Filter;
    assert_eq!(
        ui.status_line(),
        "Filter Mode | Enter filter text, press Enter to apply, Esc to cancel"
    );
}

#[test]
fn filter_prompt_shows_the_input() {
    let mut ui = AppUi::new();
    assert_eq!(ui.filter_prompt(), "Filter: ");
    ui.filter_input = "err".to_string();
    assert_eq!(ui.filter_prompt(), "Filter: err");
}

#[test]
fn server_info_text_of_a_given_server() {
    let mut ui = sample_viewer();
    ui.server_info = Some(ServerInfo {
        host: "0.0.0.0".to_string(),
        port: 65535,
        endpoints: vec![
            EndpointInfo {
                path: "/health".to_string(),
                method: "GET".to_string(),
                description: "Health check".to_string(),
            },
            EndpointInfo {
                path: "/api/user/{id}".to_string(),
                method: "get".to_string(),
                description: "A user".to_string(),
            },
        ],
    });
    assert_eq!(
        ui.server_info_text(),
        "Server Information\n\nHost: 0.0.0.0\nPort: 65535\nStatus: Running\n\nAvailable Endpoints:\n  - GET /health : Health check\n  - get /api/user/{id} : A user\n\nServer Statistics:\n  - Uptime: Since application start\n  - Total Logs: 3"
    );
}

#[test]
fn server_info_text_without_a_server() {
    let ui = AppUi::new();
    assert_eq!(
        ui.server_info_text(),
        "Server Information\n\nHost: 127.0.0.1\nPort: 3000\nStatus: Running\n\nAvailable Endpoints:\n  - GET / : Returns 'Hello, World!'\n  - GET /health : Returns 'OK'\n  - GET /helloworld : Returns 'Hello, World!'\n\nServer Statistics:\n  - Uptime: Since application start\n  - Total Logs: 0"
    );
}

#[test]
fn server_info_text_of_a_server_without_endpoints() {
    let mut ui = AppUi::new();
    ui.server_info = Some(ServerInfo { host: "h".to_string(), port: 0, endpoints: vec![] });
    assert_eq!(
        ui.server_info_text(),
        "Server Information\n\nHost: h\nPort: 0\nStatus: Running\n\nAvailable Endpoints:\n\nServer Statistics:\n  - Uptime: Since application start\n  - Total Logs: 0"
    );
}

#[test]
fn help_text_lists_the_keys() {
    assert_eq!(
        help_text(),
        "Keyboard Controls:\n\nq       - Quit application\nh       - Toggle help screen\nc       - Clear logs\nt       - Toggle timestamps\nf       - Filter logs\nTab     - Next tab\nShift+Tab - Previous tab\nCtrl+s  - Save logs to file\nEsc     - Cancel filter/Close help\nUp/Down - Navigate logs\nPgUp    - Scroll up 10 entries\nPgDown  - Scroll down 10 entries\nHome    - Jump to first log\nEnd     - Jump to last log"
    );
}

#[test]
fn help_area_is_centred() {
    assert_eq!(help_area(100, 40), Area { x: 20, y: 12, width: 60, height: 16 });
    assert_eq!(help_area(61, 17), Area { x: 0, y: 0, width: 60, height: 16 });
    assert_eq!(help_area(62, 18), Area { x: 1, y: 1, width: 60, height: 16 });
    assert_eq!(help_area(10, 5), Area { x: 0, y: 0, width: 60, height: 16 });
    assert_eq!(help_area(0, 0), Area { x: 0, y: 0, width: 60, height: 16 });
    assert_eq!(help_area(u16::MAX, u16::MAX), Area { x: 32737, y: 32759, width: 60, height: 16 });
}

#[test]
fn panel_and_overlay_follow_tab_and_mode() {
    let mut ui = AppUi::new();
    assert_eq!(ui.panel(), Panel::Logs);
    assert_eq!(ui.overlay(), Overlay::Nothing);
    ui.selected_tab = 1;
    ui.mode = AppMode::Filter;
    assert_eq!(ui.panel(), Panel::ServerInfo);
    assert_eq!(ui.overlay(), Overlay::FilterInput);
    ui.selected_tab = 2;
    ui.mode = AppMode::Help;
    assert_eq!(ui.panel(), Panel::Empty);
    assert_eq!(ui.overlay(), Overlay::Help);
}

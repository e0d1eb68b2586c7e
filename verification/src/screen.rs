//! What the viewer shows: the texts of its panels, bars and overlays, and
//! what is drawn in which mode. Drawing itself is left to the terminal
//! library.

use vstd::prelude::*;
use vstd::string::*;
use crate::text::{
    clock_text, decimal, join_lines, joined, line_views, push_decimal, push_line, terminated,
};
use crate::viewer::{AppMode, AppUi, EndpointInfo, LogView, ServerInfo, UiView};

verus! {

/// A log entry as the list shows it: behind its time of day in brackets, or
/// alone.
pub open spec fn shown_line(entry: LogView, show_timestamps: bool) -> Seq<char> {
    if show_timestamps {
        "["@ + clock_text(entry.timestamp as nat) + "] "@ + entry.message
    } else {
        entry.message
    }
}

/// The lines of the log list: the entries that pass the filter, in order.
pub open spec fn shown_lines(ui: UiView) -> Seq<Seq<char>> {
    Seq::new(
        ui.filtered_logs.len(),
        |k: int| shown_line(ui.logs[ui.filtered_logs[k] as int], ui.show_timestamps),
    )
}

/// The title of the log list: how many entries are visible, of how many.
pub open spec fn logs_title(ui: UiView) -> Seq<char> {
    "Logs ("@ + decimal(ui.filtered_logs.len()) + "/"@ + decimal(ui.logs.len()) + ")"@
}

/// The export of the visible log lines: a heading, a rule, an empty line,
/// then the lines, each ended by a line feed.
pub open spec fn export_text(ui: UiView) -> Seq<char> {
    "Server Logs Export\n===================\n\n"@ + terminated(shown_lines(ui))
}

/// The text of the status bar.
pub open spec fn status_line(ui: UiView) -> Seq<char> {
    match ui.mode {
        AppMode::Normal => if ui.selected_tab == 0 {
            "Logs Tab | Logs: "@ + decimal(ui.logs.len()) + " | Filter: "@ + (if ui.filter.len()
                == 0 {
                "None"@
            } else {
                ui.filter
            }) + " | Press 'h' for help"@
        } else if ui.selected_tab == 1 {
            "Server Info Tab | Server: localhost:3000 | Press 'h' for help"@
        } else {
            "Press 'h' for help"@
        },
        AppMode::Help => "Help Mode | Press Esc to return"@,
        AppMode::Filter => "Filter Mode | Enter filter text, press Enter to apply, Esc to cancel"@,
    }
}

/// The line of the server tab that describes one endpoint.
pub open spec fn endpoint_line(endpoint: EndpointInfo) -> Seq<char> {
    "  - "@ + endpoint.method@ + " "@ + endpoint.path@ + " : "@ + endpoint.description@
}

/// The lines of the server tab that describe the server: those of the
/// server that the viewer was given, or those of a sample server.
pub open spec fn server_lines(info: Option<ServerInfo>) -> Seq<Seq<char>> {
    match info {
        Some(info) => seq![
            "Host: "@ + info.host@,
            "Port: "@ + decimal(info.port as nat),
            "Status: Running"@,
            ""@,
            "Available Endpoints:"@,
        ] + Seq::new(info.endpoints@.len(), |i: int| endpoint_line(info.endpoints@[i])),
        None => seq![
            "Host: 127.0.0.1"@,
            "Port: 3000"@,
            "Status: Running"@,
            ""@,
            "Available Endpoints:"@,
            "  - GET / : Returns 'Hello, World!'"@,
            "  - GET /health : Returns 'OK'"@,
            "  - GET /helloworld : Returns 'Hello, World!'"@,
        ],
    }
}

/// The lines of the server tab.
pub open spec fn server_info_lines(ui: UiView) -> Seq<Seq<char>> {
    seq!["Server Information"@, ""@] + server_lines(ui.server_info) + seq![
        ""@,
        "Server Statistics:"@,
        "  - Uptime: Since application start"@,
        "  - Total Logs: "@ + decimal(ui.logs.len()),
    ]
}

/// The lines of the help overlay.
pub open spec fn help_lines() -> Seq<Seq<char>> {
    seq![
        "Keyboard Controls:"@,
        ""@,
        "q       - Quit application"@,
        "h       - Toggle help screen"@,
        "c       - Clear logs"@,
        "t       - Toggle timestamps"@,
        "f       - Filter logs"@,
        "Tab     - Next tab"@,
        "Shift+Tab - Previous tab"@,
        "Ctrl+s  - Save logs to file"@,
        "Esc     - Cancel filter/Close help"@,
        "Up/Down - Navigate logs"@,
        "PgUp    - Scroll up 10 entries"@,
        "PgDown  - Scroll down 10 entries"@,
        "Home    - Jump to first log"@,
        "End     - Jump to last log"@,
    ]
}

/// The text of the help overlay.
pub fn help_text() -> (text: String)
    ensures
        text@ == joined(help_lines()),
{
    let mut lines: Vec<String> = Vec::new();
    push_line(&mut lines, String::from_str("Keyboard Controls:"));
    push_line(&mut lines, String::from_str(""));
    push_line(&mut lines, String::from_str("q       - Quit application"));
    push_line(&mut lines, String::from_str("h       - Toggle help screen"));
    push_line(&mut lines, String::from_str("c       - Clear logs"));
    push_line(&mut lines, String::from_str("t       - Toggle timestamps"));
    push_line(&mut lines, String::from_str("f       - Filter logs"));
    push_line(&mut lines, String::from_str("Tab     - Next tab"));
    push_line(&mut lines, String::from_str("Shift+Tab - Previous tab"));
    push_line(&mut lines, String::from_str("Ctrl+s  - Save logs to file"));
    push_line(&mut lines, String::from_str("Esc     - Cancel filter/Close help"));
    push_line(&mut lines, String::from_str("Up/Down - Navigate logs"));
    push_line(&mut lines, String::from_str("PgUp    - Scroll up 10 entries"));
    push_line(&mut lines, String::from_str("PgDown  - Scroll down 10 entries"));
    push_line(&mut lines, String::from_str("Home    - Jump to first log"));
    push_line(&mut lines, String::from_str("End     - Jump to last log"));
    proof {
        assert(line_views(lines@) =~= help_lines());
    }
    join_lines(&lines)
}

/// A rectangle of terminal cells.
#[derive(Clone, Copy, Debug, PartialEq, Eq, Structural)]
pub struct Area {
    pub x: u16,
    pub y: u16,
    pub width: u16,
    pub height: u16,
}

/// The width of the help overlay.
pub const HELP_WIDTH: u16 = 60;

/// The height of the help overlay.
pub const HELP_HEIGHT: u16 = 16;

/// Where an overlay of `size` cells starts along a side of `available`
/// cells: centred, or at 0 where it does not fit.
pub open spec fn centred(available: u16, size: u16) -> u16 {
    if available >= size {
        ((available - size) / 2) as u16
    } else {
        0
    }
}

/// The place of the help overlay on a terminal of `width` by `height`
/// cells: its fixed size, centred.
pub fn help_area(width: u16, height: u16) -> (area: Area)
    ensures
        area == (Area {
            x: centred(width, HELP_WIDTH),
            y: centred(height, HELP_HEIGHT),
            width: HELP_WIDTH,
            height: HELP_HEIGHT,
        }),
{
    Area {
        x: width.saturating_sub(HELP_WIDTH) / 2,
        y: height.saturating_sub(HELP_HEIGHT) / 2,
        width: HELP_WIDTH,
        height: HELP_HEIGHT,
    }
}

/// What fills the main area.
#[derive(Clone, Copy, Debug, PartialEq, Eq, Structural)]
pub enum Panel {
    Logs,
    ServerInfo,
    /// Nothing: no such tab.
    Empty,
}

/// What lies over the main area.
#[derive(Clone, Copy, Debug, PartialEq, Eq, Structural)]
pub enum Overlay {
    Nothing,
    FilterInput,
    Help,
}

/// The panel of a tab.
pub open spec fn panel_of(tab: usize) -> Panel {
    if tab == 0 {
        Panel::Logs
    } else if tab == 1 {
        Panel::ServerInfo
    } else {
        Panel::Empty
    }
}

/// The overlay of a mode.
pub open spec fn overlay_of(mode: AppMode) -> Overlay {
    match mode {
        AppMode::Normal => Overlay::Nothing,
        AppMode::Filter => Overlay::FilterInput,
        AppMode::Help => Overlay::Help,
    }
}

impl AppUi {
    /// The panel that fills the main area: that of the selected tab.
    pub fn panel(&self) -> (panel: Panel)
        ensures
            panel == panel_of(self.selected_tab),
    {
        if self.selected_tab == 0 {
            Panel::Logs
        } else if self.selected_tab == 1 {
            Panel::ServerInfo
        } else {
            Panel::Empty
        }
    }

    /// The overlay that lies over the panel: the filter input in filter
    /// mode, the help in help mode.
    pub fn overlay(&self) -> (overlay: Overlay)
        ensures
            overlay == overlay_of(self.mode),
    {
        match self.mode {
            AppMode::Normal => Overlay::Nothing,
            AppMode::Filter => Overlay::FilterInput,
            AppMode::Help => Overlay::Help,
        }
    }

    /// The position to highlight in the log list: the selection, as long as
    /// the list shows anything.
    pub fn selected(&self) -> (position: Option<usize>)
        ensures
            position == (if self.filtered_logs@.len() > 0 {
                Some(self.scroll)
            } else {
                None
            }),
    {
        if !self.filtered_logs.is_empty() {
            Some(self.scroll)
        } else {
            None
        }
    }

    /// The entry at `index` as the list shows it.
    pub fn log_line(&self, index: usize) -> (line: String)
        requires
            index < self.logs@.len(),
        ensures
            line@ == shown_line(self@.logs[index as int], self.show_timestamps),
    {
        let entry = &self.logs[index];
        if self.show_timestamps {
            let mut line = String::from_str("[");
            line.append(self.format_timestamp(entry.timestamp).as_str());
            line.append("] ");
            line.append(entry.message.as_str());
            line
        } else {
            entry.message.clone()
        }
    }

    /// The lines of the log list.
    pub fn log_lines(&self) -> (lines: Vec<String>)
        requires
            self@.indices_in_range(),
        ensures
            line_views(lines@) == shown_lines(self@),
    {
        let mut lines: Vec<String> = Vec::new();
        let mut k: usize = 0;
        while k < self.filtered_logs.len()
            invariant
                k <= self.filtered_logs@.len(),
                self@.indices_in_range(),
                line_views(lines@) == shown_lines(self@).take(k as int),
            decreases self.filtered_logs@.len() - k,
        {
            let line = self.log_line(self.filtered_logs[k]);
            push_line(&mut lines, line);
            proof {
                assert(line_views(lines@) =~= shown_lines(self@).take(k as int + 1));
            }
            k = k + 1;
        }
        proof {
            assert(shown_lines(self@).take(k as int) =~= shown_lines(self@));
        }
        lines
    }

    /// The title of the log list.
    pub fn logs_title(&self) -> (title: String)
        ensures
            title@ == logs_title(self@),
    {
        let mut title = String::from_str("Logs (");
        push_decimal(&mut title, self.filtered_logs.len() as u64);
        title.push('/');
        push_decimal(&mut title, self.logs.len() as u64);
        title.push(')');
        proof {
            reveal_strlit("/");
            reveal_strlit(")");
            assert(title@ =~= logs_title(self@));
        }
        title
    }

    /// The visible log lines in the form in which they are saved to a file.
    pub fn export_text(&self) -> (text: String)
        requires
            self@.indices_in_range(),
        ensures
            text@ == export_text(self@),
    {
        let mut text = String::from_str("Server Logs Export\n===================\n\n");
        let mut k: usize = 0;
        while k < self.filtered_logs.len()
            invariant
                k <= self.filtered_logs@.len(),
                self@.indices_in_range(),
                text@ == "Server Logs Export\n===================\n\n"@ + terminated(
                    shown_lines(self@).take(k as int),
                ),
            decreases self.filtered_logs@.len() - k,
        {
            let line = self.log_line(self.filtered_logs[k]);
            text.append(line.as_str());
            text.push('\n');
            proof {
                let lines = shown_lines(self@);
                assert(lines.take(k as int + 1).drop_last() =~= lines.take(k as int));
                assert(text@ =~= "Server Logs Export\n===================\n\n"@ + terminated(
                    lines.take(k as int + 1),
                ));
            }
            k = k + 1;
        }
        proof {
            assert(shown_lines(self@).take(k as int) =~= shown_lines(self@));
        }
        text
    }

    /// The text of the status bar.
    pub fn status_line(&self) -> (text: String)
        ensures
            text@ == status_line(self@),
    {
        match self.mode {
            AppMode::Normal => {
                if self.selected_tab == 0 {
                    let mut text = String::from_str("Logs Tab | Logs: ");
                    push_decimal(&mut text, self.logs.len() as u64);
                    text.append(" | Filter: ");
                    if self.filter.as_str().is_empty() {
                        text.append("None");
                    } else {
                        text.append(self.filter.as_str());
                    }
                    text.append(" | Press 'h' for help");
                    text
                } else if self.selected_tab == 1 {
                    String::from_str("Server Info Tab | Server: localhost:3000 | Press 'h' for help")
                } else {
                    String::from_str("Press 'h' for help")
                }
            },
            AppMode::Help => String::from_str("Help Mode | Press Esc to return"),
            AppMode::Filter => String::from_str(
                "Filter Mode | Enter filter text, press Enter to apply, Esc to cancel",
            ),
        }
    }

    /// The text of the filter input.
    pub fn filter_prompt(&self) -> (text: String)
        ensures
            text@ == "Filter: "@ + self.filter_input@,
    {
        let mut text = String::from_str("Filter: ");
        text.append(self.filter_input.as_str());
        text
    }

    /// The text of the server tab.
    pub fn server_info_text(&self) -> (text: String)
        ensures
            text@ == joined(server_info_lines(self@)),
    {
        let mut lines: Vec<String> = Vec::new();
        push_line(&mut lines, String::from_str("Server Information"));
        push_line(&mut lines, String::from_str(""));
        match &self.server_info {
            Some(info) => {
                let mut host = String::from_str("Host: ");
                host.append(info.host.as_str());
                push_line(&mut lines, host);
                let mut port = String::from_str("Port: ");
                push_decimal(&mut port, info.port as u64);
                push_line(&mut lines, port);
                push_line(&mut lines, String::from_str("Status: Running"));
                push_line(&mut lines, String::from_str(""));
                push_line(&mut lines, String::from_str("Available Endpoints:"));
                let ghost head = line_views(lines@);
                let mut i: usize = 0;
                while i < info.endpoints.len()
                    invariant
                        i <= info.endpoints@.len(),
                        line_views(lines@) == head + Seq::new(
                            i as nat,
                            |j: int| endpoint_line(info.endpoints@[j]),
                        ),
                    decreases info.endpoints@.len() - i,
                {
                    let endpoint = &info.endpoints[i];
                    let mut line = String::from_str("  - ");
                    line.append(endpoint.method.as_str());
                    line.append(" ");
                    line.append(endpoint.path.as_str());
                    line.append(" : ");
                    line.append(endpoint.description.as_str());
                    push_line(&mut lines, line);
                    proof {
                        assert(line_views(lines@) =~= head + Seq::new(
                            (i + 1) as nat,
                            |j: int| endpoint_line(info.endpoints@[j]),
                        ));
                    }
                    i = i + 1;
                }
                proof {
                    assert(line_views(lines@) =~= seq!["Server Information"@, ""@] + server_lines(
                        self.server_info,
                    ));
                }
            },
            None => {
                push_line(&mut lines, String::from_str("Host: 127.0.0.1"));
                push_line(&mut lines, String::from_str("Port: 3000"));
                push_line(&mut lines, String::from_str("Status: Running"));
                push_line(&mut lines, String::from_str(""));
                push_line(&mut lines, String::from_str("Available Endpoints:"));
                push_line(&mut lines, String::from_str("  - GET / : Returns 'Hello, World!'"));
                push_line(&mut lines, String::from_str("  - GET /health : Returns 'OK'"));
                push_line(
                    &mut lines,
                    String::from_str("  - GET /helloworld : Returns 'Hello, World!'"),
                );
                proof {
                    assert(line_views(lines@) =~= seq!["Server Information"@, ""@] + server_lines(
                        self.server_info,
                    ));
                }
            },
        }
        push_line(&mut lines, String::from_str(""));
        push_line(&mut lines, String::from_str("Server Statistics:"));
        push_line(&mut lines, String::from_str("  - Uptime: Since application start"));
        let mut total = String::from_str("  - Total Logs: ");
        push_decimal(&mut total, self.logs.len() as u64);
        push_line(&mut lines, total);
        proof {
            assert(line_views(lines@) =~= server_info_lines(self@));
        }
        join_lines(&lines)
    }
}

} // verus!

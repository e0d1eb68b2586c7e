//! What a key press does to the viewer.

use vstd::prelude::*;
use vstd::string::*;
use crate::viewer::{AppMode, AppUi, UiView};

verus! {

/// The keys that the viewer tells apart.
#[derive(Clone, Copy, Debug, PartialEq, Eq, Structural)]
pub enum KeyCode {
    Char(char),
    Tab,
    BackTab,
    Up,
    Down,
    PageUp,
    PageDown,
    Home,
    End,
    Esc,
    Enter,
    Backspace,
    /// Any other key.
    Other,
}

/// One key press.
#[derive(Clone, Copy, Debug, PartialEq, Eq, Structural)]
pub struct KeyPress {
    pub code: KeyCode,
    /// Whether the control key was held.
    pub control: bool,
}

/// What is left to do after a key press, outside the viewer's state.
#[derive(Clone, Copy, Debug, PartialEq, Eq, Structural)]
pub enum Command {
    /// Nothing.
    Continue,
    /// Shut the server down and leave.
    Quit,
    /// Write the visible logs to the export file, then report the outcome
    /// with `report_save`.
    SaveLogs,
}

/// How many log entries a page key moves the selection by.
pub const PAGE: usize = 10;

/// The tab after `tab`.
pub open spec fn next_tab(tab: usize) -> usize {
    ((tab + 1) % 2) as usize
}

/// The tab before `tab`.
pub open spec fn previous_tab(tab: usize) -> usize {
    if tab > 0 {
        (tab - 1) as usize
    } else {
        1
    }
}

/// The selection one entry down, as long as there is an entry below it.
pub open spec fn scrolled_down(scroll: usize, visible: nat) -> usize {
    if visible > 0 && scroll < visible - 1 {
        (scroll + 1) as usize
    } else {
        scroll
    }
}

/// The selection one page up, or at the top.
pub open spec fn paged_up(scroll: usize) -> usize {
    if scroll > PAGE {
        (scroll - PAGE) as usize
    } else {
        0
    }
}

/// The selection one page down, or at the last entry; unchanged with no
/// entry visible.
pub open spec fn paged_down(scroll: usize, visible: nat) -> usize {
    if visible == 0 {
        scroll
    } else if scroll + PAGE < visible - 1 {
        (scroll + PAGE) as usize
    } else {
        (visible - 1) as usize
    }
}

/// The selection at the last entry; unchanged with no entry visible.
pub open spec fn at_end(scroll: usize, visible: nat) -> usize {
    if visible > 0 {
        (visible - 1) as usize
    } else {
        scroll
    }
}

/// The state after a key press in normal mode.
pub open spec fn normal_key(ui: UiView, key: KeyPress) -> UiView {
    let visible = ui.filtered_logs.len();
    match key.code {
        KeyCode::Char(c) => if c == 'h' {
            ui.with_mode(AppMode::Help)
        } else if c == 'c' {
            ui.cleared()
        } else if c == 't' {
            UiView { show_timestamps: !ui.show_timestamps, ..ui }
        } else if c == 'f' {
            UiView { mode: AppMode::Filter, filter_input: ui.filter, ..ui }
        } else {
            ui
        },
        KeyCode::Tab => UiView { selected_tab: next_tab(ui.selected_tab), ..ui },
        KeyCode::BackTab => UiView { selected_tab: previous_tab(ui.selected_tab), ..ui },
        KeyCode::Up => ui.with_scroll(
            if ui.scroll > 0 {
                (ui.scroll - 1) as usize
            } else {
                ui.scroll
            },
        ),
        KeyCode::Down => ui.with_scroll(scrolled_down(ui.scroll, visible)),
        KeyCode::PageUp => ui.with_scroll(paged_up(ui.scroll)),
        KeyCode::PageDown => ui.with_scroll(paged_down(ui.scroll, visible)),
        KeyCode::Home => ui.with_scroll(0),
        KeyCode::End => ui.with_scroll(at_end(ui.scroll, visible)),
        _ => ui,
    }
}

/// The state after a key press in help mode: `Esc` and `h` close the help.
pub open spec fn help_key(ui: UiView, key: KeyPress) -> UiView {
    if key.code == KeyCode::Esc || key.code == KeyCode::Char('h') {
        ui.with_mode(AppMode::Normal)
    } else {
        ui
    }
}

/// The state after a key press in filter mode: characters are typed,
/// `Backspace` takes the last one back, `Enter` applies the filter and
/// `Esc` gives it up.
pub open spec fn filter_key(ui: UiView, key: KeyPress) -> UiView {
    match key.code {
        KeyCode::Esc => UiView { mode: AppMode::Normal, filter_input: Seq::empty(), ..ui },
        KeyCode::Enter => ui.filter_applied(),
        KeyCode::Char(c) => UiView { filter_input: ui.filter_input.push(c), ..ui },
        KeyCode::Backspace => UiView {
            filter_input: if ui.filter_input.len() > 0 {
                ui.filter_input.drop_last()
            } else {
                ui.filter_input
            },
            ..ui
        },
        _ => ui,
    }
}

/// The state after a key press.
pub open spec fn after_key(ui: UiView, key: KeyPress) -> UiView {
    match ui.mode {
        AppMode::Normal => normal_key(ui, key),
        AppMode::Help => help_key(ui, key),
        AppMode::Filter => filter_key(ui, key),
    }
}

/// What a key press asks for beyond the state: in normal mode `q` quits and
/// `s` with the control key saves the logs.
pub open spec fn command_of(ui: UiView, key: KeyPress) -> Command {
    if ui.mode == AppMode::Normal && key.code == KeyCode::Char('q') {
        Command::Quit
    } else if ui.mode == AppMode::Normal && key.code == KeyCode::Char('s') && key.control {
        Command::SaveLogs
    } else {
        Command::Continue
    }
}

fn normal_mode_key(app: &mut AppUi, key: KeyPress)
    requires
        old(app).mode == AppMode::Normal,
    ensures
        final(app)@ == normal_key(old(app)@, key),
        old(app)@.indices_in_range() ==> final(app)@.indices_in_range(),
{
    let visible: usize = app.filtered_logs.len();
    match key.code {
        KeyCode::Char(c) => {
            if c == 'h' {
                app.mode = AppMode::Help;
            } else if c == 'c' {
                app.clear_logs();
            } else if c == 't' {
                app.show_timestamps = !app.show_timestamps;
            } else if c == 'f' {
                app.mode = AppMode::Filter;
                app.filter_input = app.filter.clone();
            }
        },
        KeyCode::Tab => {
            app.selected_tab = (app.selected_tab % 2 + 1) % 2;
        },
        KeyCode::BackTab => {
            app.selected_tab = if app.selected_tab > 0 {
                app.selected_tab - 1
            } else {
                1
            };
        },
        KeyCode::Up => {
            if app.scroll > 0 {
                app.scroll = app.scroll - 1;
            }
        },
        KeyCode::Down => {
            if visible > 0 && app.scroll < visible - 1 {
                app.scroll = app.scroll + 1;
            }
        },
        KeyCode::PageUp => {
            if app.scroll > PAGE {
                app.scroll = app.scroll - PAGE;
            } else {
                app.scroll = 0;
            }
        },
        KeyCode::PageDown => {
            if visible > 0 {
                if app.scroll < visible - 1 && visible - 1 - app.scroll > PAGE {
                    app.scroll = app.scroll + PAGE;
                } else {
                    app.scroll = visible - 1;
                }
            }
        },
        KeyCode::Home => {
            app.scroll = 0;
        },
        KeyCode::End => {
            if visible > 0 {
                app.scroll = visible - 1;
            }
        },
        _ => {},
    }
}

fn filter_mode_key(app: &mut AppUi, key: KeyPress)
    requires
        old(app).mode == AppMode::Filter,
    ensures
        final(app)@ == filter_key(old(app)@, key),
        old(app)@.indices_in_range() ==> final(app)@.indices_in_range(),
{
    match key.code {
        KeyCode::Esc => {
            app.mode = AppMode::Normal;
            app.filter_input = String::new();
        },
        KeyCode::Enter => {
            app.apply_filter();
        },
        KeyCode::Char(c) => {
            app.filter_input.push(c);
        },
        KeyCode::Backspace => {
            app.filter_input.pop();
        },
        _ => {},
    }
}

/// Applies one key press to the viewer and says what is left to do.
pub fn handle_key(app: &mut AppUi, key: KeyPress) -> (command: Command)
    ensures
        final(app)@ == after_key(old(app)@, key),
        command == command_of(old(app)@, key),
        old(app)@.indices_in_range() ==> final(app)@.indices_in_range(),
{
    match app.mode {
        AppMode::Normal => {
            let command = match key.code {
                KeyCode::Char(c) => if c == 'q' {
                    Command::Quit
                } else if c == 's' && key.control {
                    Command::SaveLogs
                } else {
                    Command::Continue
                },
                _ => Command::Continue,
            };
            normal_mode_key(app, key);
            command
        },
        AppMode::Help => {
            match key.code {
                KeyCode::Esc => {
                    app.mode = AppMode::Normal;
                },
                KeyCode::Char(c) => {
                    if c == 'h' {
                        app.mode = AppMode::Normal;
                    }
                },
                _ => {},
            }
            Command::Continue
        },
        AppMode::Filter => {
            filter_mode_key(app, key);
            Command::Continue
        },
    }
}

/// The log line that reports how saving the logs went: `error` is what went
/// wrong, if anything did.
pub open spec fn save_report(error: Option<Seq<char>>) -> Seq<char> {
    match error {
        None => "Logs saved to server_logs.txt"@,
        Some(e) => "Error saving logs: "@ + e,
    }
}

/// The log line that reports how saving the logs went.
pub fn report_save(error: Option<&str>) -> (line: String)
    ensures
        line@ == save_report(
            match error {
                Some(e) => Some(e@),
                None => None,
            },
        ),
{
    match error {
        None => String::from_str("Logs saved to server_logs.txt"),
        Some(e) => {
            let mut line = String::from_str("Error saving logs: ");
            line.append(e);
            line
        },
    }
}

} // verus!

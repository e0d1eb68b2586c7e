//! The state of the log viewer: the log lines received so far, the filter
//! that selects the visible ones, and the position of the selection.

use vstd::prelude::*;
use vstd::string::*;
use std::time::{SystemTime, UNIX_EPOCH};
use crate::text::{
    chars_of, clock_text, contains_chars, is_substring, lowercase_of, push_two_digits,
};

verus! {

/// The largest number of log entries that the viewer keeps.
pub const MAX_LOGS: usize = 1000;

/// One received log line.
pub struct LogEntry {
    /// When the line was received, in seconds since the Unix epoch.
    pub timestamp: u64,
    /// The line.
    pub message: String,
}

/// A log entry with its message taken by its view.
pub struct LogView {
    pub timestamp: u64,
    pub message: Seq<char>,
}

impl View for LogEntry {
    type V = LogView;

    open spec fn view(&self) -> LogView {
        LogView { timestamp: self.timestamp, message: self.message@ }
    }
}

/// The views of a list of log entries.
pub open spec fn log_views(logs: Seq<LogEntry>) -> Seq<LogView> {
    logs.map_values(|e: LogEntry| e@)
}

/// What the keyboard currently controls.
#[derive(Clone, Copy, Debug, PartialEq, Eq, Structural)]
pub enum AppMode {
    /// The log list and the tabs.
    Normal,
    /// The help overlay.
    Help,
    /// The filter input.
    Filter,
}

/// One endpoint of the server, as the viewer shows it.
pub struct EndpointInfo {
    pub path: String,
    pub method: String,
    pub description: String,
}

impl Clone for EndpointInfo {
    fn clone(&self) -> (copy: Self)
        ensures
            copy == *self,
    {
        EndpointInfo {
            path: self.path.clone(),
            method: self.method.clone(),
            description: self.description.clone(),
        }
    }
}

/// The server that the viewer belongs to.
pub struct ServerInfo {
    pub host: String,
    pub port: u16,
    pub endpoints: Vec<EndpointInfo>,
}

impl Clone for ServerInfo {
    fn clone(&self) -> (copy: Self)
        ensures
            copy.host == self.host,
            copy.port == self.port,
            copy.endpoints@ == self.endpoints@,
    {
        let mut endpoints: Vec<EndpointInfo> = Vec::new();
        let mut i: usize = 0;
        while i < self.endpoints.len()
            invariant
                i <= self.endpoints@.len(),
                endpoints@ == self.endpoints@.take(i as int),
            decreases self.endpoints@.len() - i,
        {
            endpoints.push(self.endpoints[i].clone());
            proof {
                assert(endpoints@ =~= self.endpoints@.take(i as int + 1));
            }
            i = i + 1;
        }
        proof {
            assert(self.endpoints@.take(i as int) =~= self.endpoints@);
        }
        ServerInfo { host: self.host.clone(), port: self.port, endpoints }
    }
}

/// The viewer's state.
pub struct AppUi {
    /// The log entries, oldest first.
    pub logs: Vec<LogEntry>,
    /// The indices into `logs` of the entries that pass the filter, ascending.
    pub filtered_logs: Vec<usize>,
    /// The selected position in `filtered_logs`.
    pub scroll: usize,
    /// The filter in force; empty for no filter.
    pub filter: String,
    /// The filter being typed.
    pub filter_input: String,
    pub mode: AppMode,
    pub show_timestamps: bool,
    /// 0 for the log tab, 1 for the server tab.
    pub selected_tab: usize,
    pub server_info: Option<ServerInfo>,
}

/// The viewer's state with each string taken by its view.
pub struct UiView {
    pub logs: Seq<LogView>,
    pub filtered_logs: Seq<usize>,
    pub scroll: usize,
    pub filter: Seq<char>,
    pub filter_input: Seq<char>,
    pub mode: AppMode,
    pub show_timestamps: bool,
    pub selected_tab: usize,
    pub server_info: Option<ServerInfo>,
}

impl View for AppUi {
    type V = UiView;

    open spec fn view(&self) -> UiView {
        UiView {
            logs: log_views(self.logs@),
            filtered_logs: self.filtered_logs@,
            scroll: self.scroll,
            filter: self.filter@,
            filter_input: self.filter_input@,
            mode: self.mode,
            show_timestamps: self.show_timestamps,
            selected_tab: self.selected_tab,
            server_info: self.server_info,
        }
    }
}

/// A message passes a filter when the filter is empty or when the filter, in
/// lower case, occurs in the message in lower case.
pub open spec fn passes(message: Seq<char>, filter: Seq<char>) -> bool {
    filter.len() == 0 || is_substring(lowercase_of(filter), lowercase_of(message))
}

/// The indices of the entries of `logs` that pass `filter`, ascending.
pub open spec fn filtered_indices(logs: Seq<LogView>, filter: Seq<char>) -> Seq<usize>
    decreases logs.len(),
{
    if logs.len() == 0 {
        Seq::empty()
    } else {
        let before = filtered_indices(logs.drop_last(), filter);
        if passes(logs.last().message, filter) {
            before.push((logs.len() - 1) as usize)
        } else {
            before
        }
    }
}

/// The log list after `entry` has arrived: the entry is appended, and the
/// oldest entry leaves where that makes more than `MAX_LOGS`.
pub open spec fn with_entry(logs: Seq<LogView>, entry: LogView) -> Seq<LogView> {
    if logs.len() + 1 > MAX_LOGS {
        logs.push(entry).drop_first()
    } else {
        logs.push(entry)
    }
}

/// The selection moved back onto the last visible entry where it lies
/// behind it; with nothing visible it stays where it is.
pub open spec fn clamped_scroll(scroll: usize, visible: nat) -> usize {
    if visible > 0 && scroll >= visible {
        (visible - 1) as usize
    } else {
        scroll
    }
}

/// `indices` are exactly the indices below `len` that satisfy `keep`, in
/// ascending order.
pub open spec fn selects(indices: Seq<usize>, len: nat, keep: spec_fn(int) -> bool) -> bool {
    &&& forall|k: int| 0 <= k < indices.len() ==> indices[k] < len && keep(indices[k] as int)
    &&& forall|j: int, k: int| 0 <= j < k < indices.len() ==> indices[j] < indices[k]
    &&& forall|i: int| 0 <= i < len && #[trigger] keep(i) ==> indices.contains(i as usize)
}

/// `filtered_indices` lists each passing entry once, in ascending order, and
/// no other.
pub proof fn lemma_filtered_indices(logs: Seq<LogView>, filter: Seq<char>)
    requires
        logs.len() <= usize::MAX,
    ensures
        selects(filtered_indices(logs, filter), logs.len(), |i: int| passes(logs[i].message, filter)),
        filtered_indices(logs, filter).len() <= logs.len(),
    decreases logs.len(),
{
    if logs.len() > 0 {
        let before = filtered_indices(logs.drop_last(), filter);
        let all = filtered_indices(logs, filter);
        lemma_filtered_indices(logs.drop_last(), filter);
        let keep = |i: int| passes(logs[i].message, filter);
        let keep_before = |i: int| passes(logs.drop_last()[i].message, filter);
        assert forall|k: int| 0 <= k < all.len() implies all[k] < logs.len() && keep(
            all[k] as int,
        ) by {
            if k < before.len() {
                assert(keep_before(before[k] as int));
            }
        }
        assert forall|i: int| 0 <= i < logs.len() && #[trigger] keep(i) implies all.contains(
            i as usize,
        ) by {
            if i < logs.len() - 1 {
                assert(keep_before(i));
                let k = choose|k: int| 0 <= k < before.len() && before[k] == i as usize;
                assert(all[k] == i as usize);
            } else {
                assert(all[all.len() - 1] == i as usize);
            }
        }
    }
}

impl UiView {
    /// Every index in `filtered_logs` points into `logs`.
    pub open spec fn indices_in_range(self) -> bool {
        forall|k: int| 0 <= k < self.filtered_logs.len() ==> self.filtered_logs[k] < self.logs.len()
    }

    /// The state with the filtered view recomputed from the logs and the
    /// filter, and the selection moved back into range.
    pub open spec fn refreshed(self) -> UiView {
        let filtered_logs = filtered_indices(self.logs, self.filter);
        UiView {
            filtered_logs,
            scroll: clamped_scroll(self.scroll, filtered_logs.len()),
            ..self
        }
    }

    /// The state once `message` has been received at `timestamp`.
    pub open spec fn received(self, message: Seq<char>, timestamp: u64) -> UiView {
        (UiView { logs: with_entry(self.logs, LogView { timestamp, message }), ..self }).refreshed()
    }

    /// The state once the typed filter has been put in force.
    pub open spec fn filter_applied(self) -> UiView {
        (UiView { filter: self.filter_input, ..self }).refreshed().with_mode(AppMode::Normal)
    }

    /// The state in another mode.
    pub open spec fn with_mode(self, mode: AppMode) -> UiView {
        UiView { mode, ..self }
    }

    /// The state with the selection elsewhere.
    pub open spec fn with_scroll(self, scroll: usize) -> UiView {
        UiView { scroll, ..self }
    }

    /// The state without any log entry.
    pub open spec fn cleared(self) -> UiView {
        UiView { logs: Seq::empty(), filtered_logs: Seq::empty(), scroll: 0, ..self }
    }
}

/// `SystemTime::now` from the standard library, as the whole seconds that
/// `duration_since` counts from the Unix epoch; nothing where the clock
/// stands before the epoch. Nothing is claimed of the value: it is the time.
#[verifier::external_body]
fn unix_seconds() -> Option<u64> {
    SystemTime::now().duration_since(UNIX_EPOCH).ok().map(|elapsed| elapsed.as_secs())
}

impl AppUi {
    /// A viewer with no logs and no filter, showing timestamps on the log tab.
    pub fn new() -> (ui: Self)
        ensures
            ui@ == (UiView {
                logs: Seq::empty(),
                filtered_logs: Seq::empty(),
                scroll: 0,
                filter: Seq::empty(),
                filter_input: Seq::empty(),
                mode: AppMode::Normal,
                show_timestamps: true,
                selected_tab: 0,
                server_info: None,
            }),
    {
        let ui = AppUi {
            logs: Vec::new(),
            filtered_logs: Vec::new(),
            scroll: 0,
            filter: String::new(),
            filter_input: String::new(),
            mode: AppMode::Normal,
            show_timestamps: true,
            selected_tab: 0,
            server_info: None,
        };
        proof {
            assert(ui@.logs =~= Seq::empty());
        }
        ui
    }

    /// Recomputes `filtered_logs` from `logs` and `filter`, and moves the
    /// selection back into range.
    pub fn update_filtered_logs(&mut self)
        ensures
            final(self)@ == old(self)@.refreshed(),
            final(self)@.indices_in_range(),
    {
        let unfiltered = self.filter.as_str().is_empty();
        let needle = chars_of(self.filter.as_str().to_lowercase().as_str());
        let mut indices: Vec<usize> = Vec::new();
        let mut i: usize = 0;
        while i < self.logs.len()
            invariant
                i <= self.logs@.len(),
                *self == *old(self),
                unfiltered == (self.filter@.len() == 0),
                needle@ == lowercase_of(self.filter@),
                indices@ == filtered_indices(log_views(self.logs@).take(i as int), self.filter@),
            decreases self.logs@.len() - i,
        {
            proof {
                let views = log_views(self.logs@);
                assert(views.take(i as int + 1).drop_last() =~= views.take(i as int));
            }
            let keep = unfiltered || {
                let hay = chars_of(self.logs[i].message.as_str().to_lowercase().as_str());
                contains_chars(&hay, &needle)
            };
            if keep {
                indices.push(i);
            }
            i = i + 1;
        }
        proof {
            let views = log_views(self.logs@);
            assert(views.take(i as int) =~= views);
            lemma_filtered_indices(views, self.filter@);
        }
        self.filtered_logs = indices;
        if !self.filtered_logs.is_empty() && self.scroll >= self.filtered_logs.len() {
            self.scroll = self.filtered_logs.len() - 1;
        }
    }

    /// Appends a log line received at `timestamp`, drops the oldest entry
    /// where more than `MAX_LOGS` would be kept, and refreshes the filtered
    /// view.
    pub fn add_log_at(&mut self, message: String, timestamp: u64)
        ensures
            final(self)@ == old(self)@.received(message@, timestamp),
            final(self)@.indices_in_range(),
    {
        self.logs.push(LogEntry { timestamp, message });
        proof {
            assert(log_views(self.logs@) =~= log_views(old(self).logs@).push(
                LogView { timestamp, message: message@ },
            ));
        }
        if self.logs.len() > MAX_LOGS {
            let ghost before = self.logs@;
            self.logs.remove(0);
            proof {
                assert(log_views(self.logs@) =~= log_views(before).drop_first());
            }
        }
        self.update_filtered_logs();
    }

    /// Appends a log line received now, or at the epoch where the clock
    /// stands before it; see `add_log_at`.
    pub fn add_log(&mut self, message: String)
        ensures
            exists|timestamp: u64| final(self)@ == old(self)@.received(message@, timestamp),
            final(self)@.indices_in_range(),
    {
        let timestamp: u64 = match unix_seconds() {
            Some(seconds) => seconds,
            None => 0,
        };
        self.add_log_at(message, timestamp);
    }

    /// Makes the typed filter the filter in force, refreshes the filtered
    /// view and returns to normal mode.
    pub fn apply_filter(&mut self)
        ensures
            final(self)@ == old(self)@.filter_applied(),
            final(self)@.indices_in_range(),
    {
        self.filter = self.filter_input.clone();
        self.update_filtered_logs();
        self.mode = AppMode::Normal;
    }

    /// Forgets every log entry and resets the selection.
    pub fn clear_logs(&mut self)
        ensures
            final(self)@ == old(self)@.cleared(),
            final(self)@.indices_in_range(),
    {
        self.logs.clear();
        self.filtered_logs.clear();
        self.scroll = 0;
        proof {
            assert(self@.logs =~= Seq::empty());
        }
    }

    /// The time of day of `timestamp`, as `HH:MM:SS` in UTC.
    pub fn format_timestamp(&self, timestamp: u64) -> (text: String)
        ensures
            text@ == clock_text(timestamp as nat),
    {
        let secs: u64 = timestamp % 60;
        let mins: u64 = (timestamp / 60) % 60;
        let hours: u64 = (timestamp / 3600) % 24;
        let mut text = String::new();
        push_two_digits(&mut text, hours);
        text.push(':');
        push_two_digits(&mut text, mins);
        text.push(':');
        push_two_digits(&mut text, secs);
        proof {
            assert(text@ =~= clock_text(timestamp as nat));
        }
        text
    }
}

} // verus!

//! The state of the clicker window apart from the speed setting: the click
//! settings, the sequence editor, the status line, and the decisions taken
//! when the user or a hotkey starts, stops or captures.

use vstd::prelude::*;
use crate::clicker::{ClickButton, ClickMode, ClickType, ClickerConfig, SequenceItem};
use crate::hotkey::HotkeyEvent;
use crate::text::{decimal, push_decimal, push_signed_decimal, signed_decimal};

verus! {

/// The tabs of the window.
#[derive(Debug, Clone, Copy, PartialEq, Eq, Structural)]
pub enum Tab {
    Basic,
    Advanced,
    Settings,
}

/// The status line.
pub enum Status {
    Idle,
    Running,
    Stopped(u64),
    Done(u64),
    Captured(i32, i32),
    Saved(String),
    SaveError(String),
    Loaded(String),
    LoadError(String),
}

/// The text of the status line.
pub open spec fn status_text(status: Status) -> Seq<char> {
    match status {
        Status::Idle => "Idle"@,
        Status::Running => "Running…"@,
        Status::Stopped(n) => "Stopped — "@ + decimal(n as nat) + " clicks"@,
        Status::Done(n) => "Done — "@ + decimal(n as nat) + " clicks"@,
        Status::Captured(x, y) => "Captured ("@ + signed_decimal(x as int) + ", "@ + signed_decimal(
            y as int,
        ) + ")"@,
        Status::Saved(name) => "Saved profile '"@ + name@ + "'"@,
        Status::SaveError(e) => "Save error: "@ + e@,
        Status::Loaded(name) => "Loaded '"@ + name@ + "'"@,
        Status::LoadError(e) => "Load error: "@ + e@,
    }
}

impl Status {
    /// The text of the status line.
    pub fn text(&self) -> (s: String)
        ensures
            s@ == status_text(*self),
    {
        match self {
            Status::Idle => String::from_str("Idle"),
            Status::Running => String::from_str("Running…"),
            Status::Stopped(n) => {
                let mut s = String::from_str("Stopped — ");
                push_decimal(&mut s, *n);
                s.append(" clicks");
                s
            },
            Status::Done(n) => {
                let mut s = String::from_str("Done — ");
                push_decimal(&mut s, *n);
                s.append(" clicks");
                s
            },
            Status::Captured(x, y) => {
                let mut s = String::from_str("Captured (");
                push_signed_decimal(&mut s, *x);
                s.append(", ");
                push_signed_decimal(&mut s, *y);
                s.append(")");
                s
            },
            Status::Saved(name) => {
                let mut s = String::from_str("Saved profile '");
                s.append(name.as_str());
                s.append("'");
                s
            },
            Status::SaveError(e) => {
                let mut s = String::from_str("Save error: ");
                s.append(e.as_str());
                s
            },
            Status::Loaded(name) => {
                let mut s = String::from_str("Loaded '");
                s.append(name.as_str());
                s.append("'");
                s
            },
            Status::LoadError(e) => {
                let mut s = String::from_str("Load error: ");
                s.append(e.as_str());
                s
            },
        }
    }
}

/// The caption of the start/stop button.
pub fn start_stop_caption(running: bool) -> (s: &'static str)
    ensures
        s@ == (if running { "■  Stop  (F8)"@ } else { "▶  Start  (F8)"@ }),
{
    if running {
        "■  Stop  (F8)"
    } else {
        "▶  Start  (F8)"
    }
}

/// The line shown beside the start/stop button while clicking.
pub fn running_text(clicks: u64) -> (s: String)
    ensures
        s@ == "● Running  —  "@ + decimal(clicks as nat) + " clicks"@,
{
    let mut s = String::from_str("● Running  —  ");
    push_decimal(&mut s, clicks);
    s.append(" clicks");
    s
}

/// The caption of the capture button, armed or not.
pub fn capture_caption(armed: bool) -> (s: &'static str)
    ensures
        s@ == (if armed { "⊙ Waiting… hover & press F6"@ } else { "⊙ Capture next with F6"@ }),
{
    if armed {
        "⊙ Waiting… hover & press F6"
    } else {
        "⊙ Capture next with F6"
    }
}

/// The note on the interval that a speed gives, shown beside the speed.
pub fn interval_text(interval_ms: u64) -> (s: String)
    ensures
        s@ == "["@ + decimal(interval_ms as nat) + " ms interval]"@,
{
    let mut s = String::from_str("[");
    push_decimal(&mut s, interval_ms);
    s.append(" ms interval]");
    s
}

/// The delay given to a sequence row made by "Add Row" or by a capture.
pub const NEW_ROW_DELAY_MS: u64 = 100;

/// The repeat count offered when switching from "Forever" to "N times".
pub const DEFAULT_REPEAT_TIMES: u64 = 5;

/// The settings a profile keeps, apart from the speed.
pub struct ProfileSettings {
    pub name: String,
    pub jitter_ms: u64,
    pub button: ClickButton,
    pub click_type: ClickType,
    pub use_limit: bool,
    pub max_clicks: u64,
    pub mode: ClickMode,
    pub sequence: Vec<SequenceItem>,
    pub seq_loop: bool,
    pub seq_repeat_count: u64,
}

impl Default for ProfileSettings {
    /// The profile called "Default": no jitter, single left clicks, no limit
    /// (100 when one is switched on), basic mode, an empty sequence that
    /// does not loop.
    fn default() -> (p: Self)
        ensures
            p.name@ == "Default"@,
            p.jitter_ms == 0,
            p.button == ClickButton::Left,
            p.click_type == ClickType::Single,
            !p.use_limit,
            p.max_clicks == 100,
            p.mode == ClickMode::Basic,
            p.sequence@.len() == 0,
            !p.seq_loop,
            p.seq_repeat_count == 0,
    {
        ProfileSettings {
            name: String::from_str("Default"),
            jitter_ms: 0,
            button: ClickButton::Left,
            click_type: ClickType::Single,
            use_limit: false,
            max_clicks: 100,
            mode: ClickMode::Basic,
            sequence: Vec::new(),
            seq_loop: false,
            seq_repeat_count: 0,
        }
    }
}

/// What a press of the start/stop control asks for.
pub enum Toggle {
    /// Start a worker with this configuration.
    Start(ClickerConfig),
    /// Stop the running worker, then report its count with `clicker_stopped`.
    Stop,
}

/// The rows of `s` with rows `i` and `j` exchanged.
pub open spec fn swap_rows(s: Seq<SequenceItem>, i: int, j: int) -> Seq<SequenceItem> {
    s.update(i, s[j]).update(j, s[i])
}

/// Rows and selection after "move up": the selected row trades places with
/// the one above it, and stays selected.
pub open spec fn moved_up(s: Seq<SequenceItem>, sel: Option<usize>) -> (Seq<SequenceItem>, Option<usize>) {
    match sel {
        Some(i) => if i > 0 {
            (swap_rows(s, i - 1, i as int), Some((i - 1) as usize))
        } else {
            (s, sel)
        },
        None => (s, sel),
    }
}

/// Rows and selection after "move down": the selected row trades places
/// with the one below it, and stays selected.
pub open spec fn moved_down(s: Seq<SequenceItem>, sel: Option<usize>) -> (Seq<SequenceItem>, Option<usize>) {
    match sel {
        Some(i) => if i + 1 < s.len() {
            (swap_rows(s, i as int, i + 1), Some((i + 1) as usize))
        } else {
            (s, sel)
        },
        None => (s, sel),
    }
}

/// Rows and selection after "delete": the selected row goes, and the row
/// that takes its place (or else the new last row) is selected.
pub open spec fn deleted(s: Seq<SequenceItem>, sel: Option<usize>) -> (Seq<SequenceItem>, Option<usize>) {
    match sel {
        Some(i) => {
            let rest = s.remove(i as int);
            if rest.len() == 0 {
                (rest, None)
            } else if i < rest.len() {
                (rest, Some(i))
            } else {
                (rest, Some((rest.len() - 1) as usize))
            }
        },
        None => (s, sel),
    }
}

/// The selection is empty or names a row.
pub open spec fn selection_valid(s: Seq<SequenceItem>, sel: Option<usize>) -> bool {
    sel matches Some(i) ==> i < s.len()
}

/// The window's state, apart from the speed setting and the handles of the
/// running worker and the hotkey listener.
pub struct AppState {
    pub jitter_ms: u64,
    pub button: ClickButton,
    pub click_type: ClickType,
    pub use_limit: bool,
    pub max_clicks: u64,
    pub active_tab: Tab,
    pub mode: ClickMode,
    pub sequence: Vec<SequenceItem>,
    pub selected_idx: Option<usize>,
    pub capture_next: bool,
    pub seq_loop: bool,
    pub seq_repeat_count: u64,
    pub profile_name: String,
    pub running: bool,
    pub status: Status,
    pub click_count_display: u64,
    pub always_on_top: bool,
}

fn copy_rows(rows: &Vec<SequenceItem>) -> (copy: Vec<SequenceItem>)
    ensures
        copy@ == rows@,
{
    let mut copy: Vec<SequenceItem> = Vec::new();
    let mut i: usize = 0;
    while i < rows.len()
        invariant
            i <= rows.len(),
            copy@ =~= rows@.subrange(0, i as int),
        decreases rows.len() - i,
    {
        copy.push(rows[i]);
        i = i + 1;
    }
    copy
}

impl AppState {
    /// `c` is the configuration a worker started now gets: the current
    /// settings, with the click limit only when it is switched on.
    pub open spec fn starts_with(&self, c: ClickerConfig, interval_ms: u64) -> bool {
        &&& c.interval_ms == interval_ms
        &&& c.jitter_ms == self.jitter_ms
        &&& c.button == self.button
        &&& c.click_type == self.click_type
        &&& c.max_clicks == (if self.use_limit { Some(self.max_clicks) } else { None })
        &&& c.mode == self.mode
        &&& c.sequence@ == self.sequence@
        &&& c.seq_loop == self.seq_loop
        &&& c.seq_repeat_count == self.seq_repeat_count
    }

    /// The state of a freshly opened window.
    pub fn new() -> (st: AppState)
        ensures
            st.jitter_ms == 0,
            st.button == ClickButton::Left,
            st.click_type == ClickType::Single,
            !st.use_limit,
            st.max_clicks == 100,
            st.active_tab == Tab::Basic,
            st.mode == ClickMode::Basic,
            st.sequence@.len() == 0,
            st.selected_idx is None,
            !st.capture_next,
            !st.seq_loop,
            st.seq_repeat_count == 0,
            st.profile_name@ == "Default"@,
            !st.running,
            st.status is Idle,
            st.click_count_display == 0,
            !st.always_on_top,
    {
        AppState {
            jitter_ms: 0,
            button: ClickButton::Left,
            click_type: ClickType::Single,
            use_limit: false,
            max_clicks: 100,
            active_tab: Tab::Basic,
            mode: ClickMode::Basic,
            sequence: Vec::new(),
            selected_idx: None,
            capture_next: false,
            seq_loop: false,
            seq_repeat_count: 0,
            profile_name: String::from_str("Default"),
            running: false,
            status: Status::Idle,
            click_count_display: 0,
            always_on_top: false,
        }
    }

    /// A worker is running.
    pub fn is_running(&self) -> (b: bool)
        ensures
            b == self.running,
    {
        self.running
    }

    /// The start/stop control (or the toggle hotkey) was used. When idle, the
    /// state turns to running with the count shown reset, and the worker to
    /// start is returned; when running, the caller is asked to stop the
    /// worker and nothing changes yet.
    pub fn toggle_clicking(&mut self, interval_ms: u64) -> (t: Toggle)
        ensures
            old(self).running ==> t is Stop && *final(self) == *old(self),
            !old(self).running ==> {
                &&& (t matches Toggle::Start(c) && old(self).starts_with(c, interval_ms))
                &&& *final(self) == (AppState {
                    running: true,
                    click_count_display: 0,
                    status: Status::Running,
                    ..*old(self)
                })
            },
    {
        if self.running {
            Toggle::Stop
        } else {
            let config = ClickerConfig {
                interval_ms,
                jitter_ms: self.jitter_ms,
                button: self.button,
                click_type: self.click_type,
                max_clicks: if self.use_limit { Some(self.max_clicks) } else { None },
                mode: self.mode,
                sequence: copy_rows(&self.sequence),
                seq_loop: self.seq_loop,
                seq_repeat_count: self.seq_repeat_count,
            };
            self.running = true;
            self.click_count_display = 0;
            self.status = Status::Running;
            Toggle::Start(config)
        }
    }

    /// The worker was told to stop; `count` is the count it had published,
    /// if there was a worker.
    pub fn clicker_stopped(&mut self, count: Option<u64>)
        ensures
            *final(self) == (AppState {
                running: false,
                click_count_display: match count {
                    Some(c) => c,
                    None => old(self).click_count_display,
                },
                status: Status::Stopped(
                    match count {
                        Some(c) => c,
                        None => old(self).click_count_display,
                    },
                ),
                ..*old(self)
            }),
    {
        match count {
            Some(c) => {
                self.click_count_display = c;
            },
            None => {},
        }
        self.running = false;
        self.status = Status::Stopped(self.click_count_display);
    }

    /// A look at the running worker: whether it has ended, and the count it
    /// has published. Returns whether the worker's handle can be dropped.
    pub fn clicker_report(&mut self, done: bool, count: u64) -> (ended: bool)
        ensures
            !old(self).running ==> !ended && *final(self) == *old(self),
            old(self).running && done ==> ended && *final(self) == (AppState {
                running: false,
                click_count_display: count,
                status: Status::Done(count),
                ..*old(self)
            }),
            old(self).running && !done ==> !ended && *final(self) == (AppState {
                click_count_display: count,
                ..*old(self)
            }),
    {
        if !self.running {
            false
        } else if done {
            self.click_count_display = count;
            self.running = false;
            self.status = Status::Done(count);
            true
        } else {
            self.click_count_display = count;
            false
        }
    }

    /// The capture hotkey reported the mouse at `(x, y)`. While capture is
    /// armed this adds a row there, with the current button and the usual
    /// delay, selects it and disarms capture; otherwise it does nothing.
    pub fn on_capture(&mut self, x: i32, y: i32)
        ensures
            !old(self).capture_next ==> *final(self) == *old(self),
            old(self).capture_next ==> {
                &&& final(self).sequence@ == old(self).sequence@.push(
                    SequenceItem { x, y, button: old(self).button, delay_ms: NEW_ROW_DELAY_MS },
                )
                &&& *final(self) == (AppState {
                    sequence: final(self).sequence,
                    selected_idx: Some(old(self).sequence@.len() as usize),
                    capture_next: false,
                    status: Status::Captured(x, y),
                    ..*old(self)
                })
            },
            selection_valid(old(self).sequence@, old(self).selected_idx) ==> selection_valid(
                final(self).sequence@,
                final(self).selected_idx,
            ),
    {
        if self.capture_next {
            self.sequence.push(SequenceItem { x, y, button: self.button, delay_ms: NEW_ROW_DELAY_MS });
            self.selected_idx = Some(self.sequence.len() - 1);
            self.capture_next = false;
            self.status = Status::Captured(x, y);
        }
    }

    /// A hotkey event arrived: a toggle is handled as the start/stop
    /// control, a capture as `on_capture`.
    pub fn on_hotkey(&mut self, event: HotkeyEvent, interval_ms: u64) -> (t: Option<Toggle>)
        ensures
            event is Toggle ==> {
                &&& old(self).running ==> t == Some(Toggle::Stop) && *final(self) == *old(self)
                &&& !old(self).running ==> {
                    &&& (t matches Some(Toggle::Start(c)) && old(self).starts_with(c, interval_ms))
                    &&& *final(self) == (AppState {
                        running: true,
                        click_count_display: 0,
                        status: Status::Running,
                        ..*old(self)
                    })
                }
            },
            event matches HotkeyEvent::Capture { x, y } ==> {
                &&& t is None
                &&& !old(self).capture_next ==> *final(self) == *old(self)
                &&& old(self).capture_next ==> {
                    &&& final(self).sequence@ == old(self).sequence@.push(
                        SequenceItem { x, y, button: old(self).button, delay_ms: NEW_ROW_DELAY_MS },
                    )
                    &&& *final(self) == (AppState {
                        sequence: final(self).sequence,
                        selected_idx: Some(old(self).sequence@.len() as usize),
                        capture_next: false,
                        status: Status::Captured(x, y),
                        ..*old(self)
                    })
                }
            },
    {
        match event {
            HotkeyEvent::Toggle => Some(self.toggle_clicking(interval_ms)),
            HotkeyEvent::Capture { x, y } => {
                self.on_capture(x, y);
                None
            },
        }
    }

    /// "Add Row": appends a row at `(0, 0)` with the current button and the
    /// usual delay, and selects it.
    pub fn add_row(&mut self)
        ensures
            final(self).sequence@ == old(self).sequence@.push(
                SequenceItem { x: 0, y: 0, button: old(self).button, delay_ms: NEW_ROW_DELAY_MS },
            ),
            *final(self) == (AppState {
                sequence: final(self).sequence,
                selected_idx: Some(old(self).sequence@.len() as usize),
                ..*old(self)
            }),
            selection_valid(final(self).sequence@, final(self).selected_idx),
    {
        self.sequence.push(SequenceItem { x: 0, y: 0, button: self.button, delay_ms: NEW_ROW_DELAY_MS });
        self.selected_idx = Some(self.sequence.len() - 1);
    }

    /// "Delete" is enabled.
    pub fn can_delete(&self) -> (b: bool)
        ensures
            b == self.selected_idx is Some,
    {
        self.selected_idx.is_some()
    }

    /// "Move up" is enabled.
    pub fn can_move_up(&self) -> (b: bool)
        ensures
            b == (self.selected_idx matches Some(i) && i > 0),
    {
        match self.selected_idx {
            Some(i) => i > 0,
            None => false,
        }
    }

    /// "Move down" is enabled.
    pub fn can_move_down(&self) -> (b: bool)
        ensures
            b == (self.selected_idx matches Some(i) && i + 1 < self.sequence@.len()),
    {
        match self.selected_idx {
            Some(i) => i < self.sequence.len() && self.sequence.len() - i > 1,
            None => false,
        }
    }

    /// "Delete": removes the selected row.
    pub fn delete_selected(&mut self)
        requires
            selection_valid(old(self).sequence@, old(self).selected_idx),
        ensures
            (final(self).sequence@, final(self).selected_idx) == deleted(
                old(self).sequence@,
                old(self).selected_idx,
            ),
            *final(self) == (AppState {
                sequence: final(self).sequence,
                selected_idx: final(self).selected_idx,
                ..*old(self)
            }),
            selection_valid(final(self).sequence@, final(self).selected_idx),
    {
        match self.selected_idx {
            Some(idx) => {
                self.sequence.remove(idx);
                let len = self.sequence.len();
                self.selected_idx = if len == 0 {
                    None
                } else if idx < len {
                    Some(idx)
                } else {
                    Some(len - 1)
                };
            },
            None => {},
        }
    }

    fn swap(&mut self, i: usize, j: usize)
        requires
            i < old(self).sequence@.len(),
            j < old(self).sequence@.len(),
        ensures
            final(self).sequence@ == swap_rows(old(self).sequence@, i as int, j as int),
            *final(self) == (AppState { sequence: final(self).sequence, ..*old(self) }),
    {
        let a = self.sequence[i];
        let b = self.sequence[j];
        self.sequence.set(i, b);
        self.sequence.set(j, a);
    }

    /// "Move up": the selected row trades places with the one above it.
    pub fn move_up(&mut self)
        requires
            old(self).selected_idx matches Some(i) ==> (i > 0 ==> i < old(self).sequence@.len()),
        ensures
            (final(self).sequence@, final(self).selected_idx) == moved_up(
                old(self).sequence@,
                old(self).selected_idx,
            ),
            *final(self) == (AppState {
                sequence: final(self).sequence,
                selected_idx: final(self).selected_idx,
                ..*old(self)
            }),
            selection_valid(old(self).sequence@, old(self).selected_idx) ==> selection_valid(
                final(self).sequence@,
                final(self).selected_idx,
            ),
    {
        match self.selected_idx {
            Some(idx) => {
                if idx > 0 {
                    self.swap(idx, idx - 1);
                    self.selected_idx = Some(idx - 1);
                    assert(swap_rows(old(self).sequence@, idx as int, idx - 1) =~= swap_rows(
                        old(self).sequence@,
                        idx - 1,
                        idx as int,
                    ));
                }
            },
            None => {},
        }
    }

    /// "Move down": the selected row trades places with the one below it.
    pub fn move_down(&mut self)
        ensures
            (final(self).sequence@, final(self).selected_idx) == moved_down(
                old(self).sequence@,
                old(self).selected_idx,
            ),
            *final(self) == (AppState {
                sequence: final(self).sequence,
                selected_idx: final(self).selected_idx,
                ..*old(self)
            }),
            selection_valid(old(self).sequence@, old(self).selected_idx) ==> selection_valid(
                final(self).sequence@,
                final(self).selected_idx,
            ),
    {
        match self.selected_idx {
            Some(idx) => {
                if idx < self.sequence.len() && self.sequence.len() - idx > 1 {
                    self.swap(idx, idx + 1);
                    self.selected_idx = Some(idx + 1);
                }
            },
            None => {},
        }
    }

    /// A row of the table was clicked: it becomes the selected one.
    pub fn select(&mut self, i: usize)
        ensures
            *final(self) == (AppState { selected_idx: Some(i), ..*old(self) }),
            i < old(self).sequence@.len() ==> selection_valid(final(self).sequence@, final(self).selected_idx),
    {
        self.selected_idx = Some(i);
    }

    /// The capture button arms capture, or disarms it.
    pub fn toggle_capture(&mut self)
        ensures
            *final(self) == (AppState { capture_next: !old(self).capture_next, ..*old(self) }),
    {
        self.capture_next = !self.capture_next;
    }

    /// "Forever" was chosen for a looping sequence.
    pub fn choose_repeat_forever(&mut self)
        ensures
            *final(self) == (AppState { seq_repeat_count: 0, ..*old(self) }),
    {
        self.seq_repeat_count = 0;
    }

    /// "N times" was chosen: when the sequence looped forever it now runs
    /// five times; a count already set stays.
    pub fn choose_repeat_times(&mut self)
        ensures
            old(self).seq_repeat_count == 0 ==> *final(self) == (AppState {
                seq_repeat_count: DEFAULT_REPEAT_TIMES,
                ..*old(self)
            }),
            old(self).seq_repeat_count != 0 ==> *final(self) == *old(self),
    {
        if self.seq_repeat_count == 0 {
            self.seq_repeat_count = DEFAULT_REPEAT_TIMES;
        }
    }

    /// The settings to save under the current profile name.
    pub fn profile_settings(&self) -> (p: ProfileSettings)
        ensures
            p.name == self.profile_name,
            p.jitter_ms == self.jitter_ms,
            p.button == self.button,
            p.click_type == self.click_type,
            p.use_limit == self.use_limit,
            p.max_clicks == self.max_clicks,
            p.mode == self.mode,
            p.sequence@ == self.sequence@,
            p.seq_loop == self.seq_loop,
            p.seq_repeat_count == self.seq_repeat_count,
    {
        ProfileSettings {
            name: self.profile_name.clone(),
            jitter_ms: self.jitter_ms,
            button: self.button,
            click_type: self.click_type,
            use_limit: self.use_limit,
            max_clicks: self.max_clicks,
            mode: self.mode,
            sequence: copy_rows(&self.sequence),
            seq_loop: self.seq_loop,
            seq_repeat_count: self.seq_repeat_count,
        }
    }

    /// The profile was saved.
    pub fn profile_saved(&mut self)
        ensures
            *final(self) == (AppState { status: Status::Saved(old(self).profile_name), ..*old(self) }),
    {
        self.status = Status::Saved(self.profile_name.clone());
    }

    /// Saving the profile failed with `error`.
    pub fn profile_save_failed(&mut self, error: String)
        ensures
            *final(self) == (AppState { status: Status::SaveError(error), ..*old(self) }),
    {
        self.status = Status::SaveError(error);
    }

    /// A profile was read: its settings replace the current ones. The
    /// selection is kept as it was.
    pub fn load_profile(&mut self, p: ProfileSettings)
        ensures
            *final(self) == (AppState {
                profile_name: p.name,
                jitter_ms: p.jitter_ms,
                button: p.button,
                click_type: p.click_type,
                use_limit: p.use_limit,
                max_clicks: p.max_clicks,
                mode: p.mode,
                sequence: p.sequence,
                seq_loop: p.seq_loop,
                seq_repeat_count: p.seq_repeat_count,
                status: Status::Loaded(p.name),
                ..*old(self)
            }),
    {
        let status = Status::Loaded(p.name.clone());
        self.profile_name = p.name;
        self.jitter_ms = p.jitter_ms;
        self.button = p.button;
        self.click_type = p.click_type;
        self.use_limit = p.use_limit;
        self.max_clicks = p.max_clicks;
        self.mode = p.mode;
        self.sequence = p.sequence;
        self.seq_loop = p.seq_loop;
        self.seq_repeat_count = p.seq_repeat_count;
        self.status = status;
    }

    /// Reading a profile failed with `error`.
    pub fn profile_load_failed(&mut self, error: String)
        ensures
            *final(self) == (AppState { status: Status::LoadError(error), ..*old(self) }),
    {
        self.status = Status::LoadError(error);
    }
}

/// "Move up" followed by "move down" gives back the rows and the selection
/// it started from, and so does "move down" followed by "move up".
pub proof fn lemma_move_up_down_inverse(s: Seq<SequenceItem>, i: usize)
    requires
        i < s.len() <= usize::MAX,
    ensures
        i > 0 ==> moved_down(moved_up(s, Some(i)).0, moved_up(s, Some(i)).1) == (s, Some(i)),
        i + 1 < s.len() ==> moved_up(moved_down(s, Some(i)).0, moved_down(s, Some(i)).1) == (s, Some(i)),
{
    if i > 0 {
        assert(swap_rows(swap_rows(s, i - 1, i as int), i - 1, i as int) =~= s);
    }
    if i + 1 < s.len() {
        let t = swap_rows(s, i as int, i + 1);
        assert(t.len() == s.len());
        assert(moved_down(s, Some(i)) == (t, Some((i + 1) as usize)));
        assert(swap_rows(t, i as int, i + 1) =~= s);
        assert(moved_up(t, Some((i + 1) as usize)) == (swap_rows(t, i as int, i + 1), Some(i)));
    }
}

/// Moving rows keeps the rows themselves: the same rows, in another order.
pub proof fn lemma_moves_keep_rows(s: Seq<SequenceItem>, sel: Option<usize>)
    requires
        selection_valid(s, sel),
    ensures
        moved_up(s, sel).0.to_multiset() == s.to_multiset(),
        moved_down(s, sel).0.to_multiset() == s.to_multiset(),
        moved_up(s, sel).0.len() == s.len(),
        moved_down(s, sel).0.len() == s.len(),
{
    broadcast use vstd::seq_lib::to_multiset_update;
    if let Some(i) = sel {
        if i > 0 {
            lemma_swap_keeps_rows(s, i - 1, i as int);
        }
        if i + 1 < s.len() {
            lemma_swap_keeps_rows(s, i as int, i + 1);
        }
    }
}

proof fn lemma_swap_keeps_rows(s: Seq<SequenceItem>, i: int, j: int)
    requires
        0 <= i < s.len(),
        0 <= j < s.len(),
        i != j,
    ensures
        swap_rows(s, i, j).to_multiset() == s.to_multiset(),
{
    broadcast use vstd::seq_lib::to_multiset_update, vstd::seq_lib::to_multiset_contains;
    let t = s.update(i, s[j]);
    assert(t.to_multiset() == s.to_multiset().insert(s[j]).remove(s[i]));
    assert(t.update(j, s[i]).to_multiset() == t.to_multiset().insert(s[i]).remove(t[j]));
    assert(t[j] == s[j]);
    assert(s.to_multiset().insert(s[j]).remove(s[i]).insert(s[i]).remove(s[j]) =~= s.to_multiset());
}

/// Deleting removes exactly the selected row and keeps the others in order.
pub proof fn lemma_delete_removes_selected(s: Seq<SequenceItem>, i: usize)
    requires
        i < s.len(),
    ensures
        deleted(s, Some(i)).0.len() == s.len() - 1,
        forall|k: int| 0 <= k < i ==> #[trigger] deleted(s, Some(i)).0[k] == s[k],
        forall|k: int| i <= k < s.len() - 1 ==> #[trigger] deleted(s, Some(i)).0[k] == s[k + 1],
        selection_valid(deleted(s, Some(i)).0, deleted(s, Some(i)).1),
        s.len() == 1 ==> deleted(s, Some(i)).1 is None,
        s.len() >= 2 && i + 1 < s.len() ==> deleted(s, Some(i)).1 == Some(i),
        s.len() >= 2 && i + 1 == s.len() ==> deleted(s, Some(i)).1 == Some((s.len() - 2) as usize),
        s.len() >= 2 && i + 1 < s.len() ==> deleted(s, Some(i)).0[i as int] == s[i + 1],
{
}

} // verus!

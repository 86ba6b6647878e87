//! The clicking worker as a state machine. The caller performs each action
//! (reading the stop flag, sleeping, moving the mouse, pressing a button,
//! publishing the click count) and reports back with an event; the machine
//! decides what comes next.

use vstd::prelude::*;
use crate::clicker::{
    ClickButton, ClickMode, ClickType, ClickerConfig, DOUBLE_CLICK_GAP_MS, draw_jitter,
    jittered_interval, pause_after_click, signed_interval,
};

verus! {

/// Where the worker stands between two actions.
#[derive(Debug, Clone, Copy, PartialEq, Eq, Structural)]
pub enum Phase {
    /// Nothing done yet.
    Begin,
    /// Waiting for the value of the stop flag.
    AwaitStop,
    /// Waiting out the delay of the current sequence row.
    AwaitDelay,
    /// The mouse was moved to the current sequence row.
    Moved,
    /// The (first) button press of a click was made.
    FirstPress,
    /// Waiting between the two presses of a double click.
    DoublePause,
    /// The second press of a double click was made.
    SecondPress,
    /// A click was counted and the new count published.
    Counted,
    /// Waiting out the pause after a click in basic mode.
    AwaitInterval,
    /// The worker has ended.
    Finished,
}

/// What the caller reports after performing an action.
#[derive(Debug, Clone, Copy, PartialEq, Eq, Structural)]
pub enum ClickerEvent {
    /// The action was carried out (or, at the start, the worker may begin).
    Proceed,
    /// The value the stop flag was found to have.
    StopFlag(bool),
    /// An interruptible sleep ended; `interrupted` when the stop flag cut it short.
    Slept { interrupted: bool },
}

/// What the caller is asked to do next.
#[derive(Debug, Clone, Copy, PartialEq, Eq, Structural)]
pub enum ClickerAction {
    /// Read the stop flag and report `StopFlag`.
    CheckStop,
    /// Sleep this many milliseconds, watching the stop flag; report `Slept`.
    Sleep(u64),
    /// Move the mouse to this absolute position; report `Proceed`.
    MoveMouse { x: i32, y: i32 },
    /// Press and release this button; report `Proceed`.
    Press(ClickButton),
    /// Sleep this many milliseconds without watching the stop flag; report `Proceed`.
    Pause(u64),
    /// Make this the published click count; report `Proceed`.
    Publish(u64),
    /// End the worker; when `raise_stop`, set the stop flag first.
    Finish { raise_stop: bool },
}

impl Phase {
    /// Phases of a click that has not been counted yet.
    pub open spec fn before_count(self) -> bool {
        self == Phase::AwaitStop || self == Phase::AwaitDelay || self == Phase::Moved
            || self == Phase::FirstPress || self == Phase::DoublePause || self == Phase::SecondPress
    }
}

impl ClickerConfig {
    /// The click limit has been reached after `clicks` clicks.
    pub open spec fn limit_reached(&self, clicks: int) -> bool {
        match self.max_clicks {
            Some(m) => clicks >= m,
            None => false,
        }
    }

}

/// A run of the clicking worker.
pub struct ClickerRun {
    pub config: ClickerConfig,
    pub phase: Phase,
    /// Clicks made so far.
    pub clicks: u64,
    /// The current row of the sequence.
    pub item: usize,
    /// Passes through the sequence completed so far.
    pub repeats: u64,
}

impl ClickerRun {
    pub open spec fn seq_len(&self) -> int {
        self.config.sequence@.len() as int
    }

    /// The button of the click in progress.
    pub open spec fn current_button(&self) -> ClickButton {
        if self.config.mode == ClickMode::Basic {
            self.config.button
        } else {
            self.config.sequence@[self.item as int].button
        }
    }

    /// The event that the last action asked for.
    pub open spec fn expects(&self, event: ClickerEvent) -> bool {
        match self.phase {
            Phase::AwaitStop => event is StopFlag,
            Phase::AwaitDelay | Phase::AwaitInterval => event is Slept,
            Phase::Finished => false,
            _ => event == ClickerEvent::Proceed,
        }
    }

    /// The next event would count a click.
    pub open spec fn counts_next(&self) -> bool {
        ||| self.phase == Phase::SecondPress
        ||| (self.phase == Phase::FirstPress && self.config.click_type == ClickType::Single)
    }

    /// What holds of every state the worker can reach.
    pub open spec fn wf(&self) -> bool {
        let len = self.seq_len();
        let basic = self.config.mode == ClickMode::Basic;
        let n = self.config.seq_repeat_count;
        &&& self.phase == Phase::Begin ==> self.clicks == 0 && self.item == 0 && self.repeats == 0
        &&& self.phase == Phase::Counted ==> self.clicks >= 1
        &&& basic ==> self.item == 0 && self.repeats == 0
        &&& basic ==> self.phase != Phase::AwaitDelay && self.phase != Phase::Moved
        &&& !basic ==> self.phase != Phase::AwaitInterval
        &&& (!basic && self.phase != Phase::Begin && self.phase != Phase::Finished) ==> self.item < len
        &&& (!basic && self.phase.before_count()) ==> self.clicks == self.repeats * len + self.item
        &&& (!basic && self.phase == Phase::Counted) ==> self.clicks == self.repeats * len + self.item + 1
        &&& (!basic && !self.config.seq_loop) ==> self.repeats == 0 && self.clicks <= len
        &&& (!basic && self.config.seq_loop && n > 0) ==> {
            &&& self.repeats <= n
            &&& self.phase != Phase::Finished ==> self.repeats < n
            &&& self.clicks <= n * len
        }
        &&& (!basic) ==> self.clicks <= (self.repeats + 1) * len
        &&& self.config.max_clicks matches Some(m) ==> {
            &&& (self.clicks <= m || self.clicks <= 1)
            &&& (self.phase != Phase::Counted && self.phase != Phase::Finished)
                ==> (self.clicks == 0 || self.clicks < m)
        }
    }

    pub open spec fn goto(self, phase: Phase, action: ClickerAction) -> (ClickerRun, ClickerAction) {
        (ClickerRun { phase, ..self }, action)
    }

    pub open spec fn finish(self, raise_stop: bool) -> (ClickerRun, ClickerAction) {
        self.goto(Phase::Finished, ClickerAction::Finish { raise_stop })
    }

    /// A press was made: pause for the second press, or count the click.
    pub open spec fn after_press(self) -> (ClickerRun, ClickerAction) {
        if self.phase == Phase::FirstPress && self.config.click_type == ClickType::Double {
            self.goto(Phase::DoublePause, ClickerAction::Pause(DOUBLE_CLICK_GAP_MS))
        } else {
            let clicks = (self.clicks + 1) as u64;
            (ClickerRun { clicks, phase: Phase::Counted, ..self }, ClickerAction::Publish(clicks))
        }
    }

    /// The stop flag was clear: go on with the click in progress.
    pub open spec fn approach(self) -> (ClickerRun, ClickerAction) {
        if self.config.mode == ClickMode::Basic {
            self.goto(Phase::FirstPress, ClickerAction::Press(self.config.button))
        } else {
            let row = self.config.sequence@[self.item as int];
            if row.delay_ms > 0 {
                self.goto(Phase::AwaitDelay, ClickerAction::Sleep(row.delay_ms))
            } else {
                self.goto(Phase::Moved, ClickerAction::MoveMouse { x: row.x, y: row.y })
            }
        }
    }

    /// A click was counted: stop at the limit, else pause (basic mode) or
    /// move on to the next row, the next pass, or the end (sequence mode).
    pub open spec fn after_count(self, jitter: int) -> (ClickerRun, ClickerAction) {
        if self.config.limit_reached(self.clicks as int) {
            self.finish(true)
        } else if self.config.mode == ClickMode::Basic {
            self.goto(
                Phase::AwaitInterval,
                ClickerAction::Sleep(pause_after_click(self.config.interval_ms, jitter) as u64),
            )
        } else if self.item + 1 < self.seq_len() {
            (
                ClickerRun { item: (self.item + 1) as usize, phase: Phase::AwaitStop, ..self },
                ClickerAction::CheckStop,
            )
        } else if !self.config.seq_loop {
            self.finish(true)
        } else {
            let repeats = (self.repeats + 1) as u64;
            if self.config.seq_repeat_count > 0 && repeats >= self.config.seq_repeat_count {
                (
                    ClickerRun { repeats, phase: Phase::Finished, ..self },
                    ClickerAction::Finish { raise_stop: true },
                )
            } else {
                (
                    ClickerRun { repeats, item: 0, phase: Phase::AwaitStop, ..self },
                    ClickerAction::CheckStop,
                )
            }
        }
    }

    /// The transition table of the worker: the next state and action for an
    /// event, with `jitter` the random offset of a pause that this step may
    /// schedule.
    pub open spec fn next(self, event: ClickerEvent, jitter: int) -> (ClickerRun, ClickerAction) {
        match self.phase {
            Phase::Begin => {
                if self.config.mode == ClickMode::Sequence && self.seq_len() == 0 {
                    self.finish(false)
                } else {
                    self.goto(Phase::AwaitStop, ClickerAction::CheckStop)
                }
            },
            Phase::AwaitStop => {
                if event == ClickerEvent::StopFlag(true) {
                    self.finish(false)
                } else {
                    self.approach()
                }
            },
            Phase::AwaitDelay => {
                if event == (ClickerEvent::Slept { interrupted: true }) {
                    self.finish(false)
                } else {
                    let row = self.config.sequence@[self.item as int];
                    self.goto(Phase::Moved, ClickerAction::MoveMouse { x: row.x, y: row.y })
                }
            },
            Phase::Moved => self.goto(Phase::FirstPress, ClickerAction::Press(self.current_button())),
            Phase::FirstPress | Phase::SecondPress => self.after_press(),
            Phase::DoublePause => self.goto(Phase::SecondPress, ClickerAction::Press(self.current_button())),
            Phase::Counted => self.after_count(jitter),
            Phase::AwaitInterval => {
                if event == (ClickerEvent::Slept { interrupted: true }) {
                    self.finish(false)
                } else {
                    self.goto(Phase::AwaitStop, ClickerAction::CheckStop)
                }
            },
            Phase::Finished => (self, ClickerAction::Finish { raise_stop: false }),
        }
    }

    /// The next step draws a random offset: a click was just counted in
    /// basic mode, below the limit, with jitter configured.
    pub open spec fn draws_jitter(&self) -> bool {
        &&& self.phase == Phase::Counted
        &&& self.config.mode == ClickMode::Basic
        &&& !self.config.limit_reached(self.clicks as int)
        &&& self.config.jitter_ms > 0
    }

    /// A worker run for `config`, before its first action.
    pub fn new(config: ClickerConfig) -> (run: ClickerRun)
        ensures
            run.config == config,
            run.phase == Phase::Begin,
            run.clicks == 0,
            run.item == 0,
            run.repeats == 0,
            run.wf(),
    {
        ClickerRun { config, phase: Phase::Begin, clicks: 0, item: 0, repeats: 0 }
    }

    /// The run has ended.
    pub fn is_finished(&self) -> (b: bool)
        ensures
            b == (self.phase == Phase::Finished),
    {
        self.phase == Phase::Finished
    }

    /// Advances the worker by one event, with `jitter` the offset to use if
    /// this step schedules the pause after a basic-mode click.
    pub fn step_with_jitter(&mut self, event: ClickerEvent, jitter: i64) -> (action: ClickerAction)
        requires
            old(self).wf(),
            old(self).expects(event),
            old(self).counts_next() ==> old(self).clicks < u64::MAX,
            -(old(self).config.jitter_ms as int) <= jitter <= old(self).config.jitter_ms,
            old(self).draws_jitter() ==> {
                &&& old(self).config.jitter_ms <= i64::MAX
                &&& i64::MIN <= signed_interval(old(self).config.interval_ms) + jitter <= i64::MAX
            },
        ensures
            (*final(self), action) == old(self).next(event, jitter as int),
            final(self).wf(),
    {
        proof {
            let len = self.seq_len();
            let r = self.repeats as int;
            lemma_mul_succ(r, len);
            lemma_mul_nonneg(r, len);
            lemma_mul_nonneg(self.config.seq_repeat_count as int, len);
            lemma_mul_le(r + 1, self.config.seq_repeat_count as int, len);
            lemma_mul_at_least(r + 1, len);
            lemma_mul_zero(r, len);
            lemma_mul_succ(r + 1, len);
        }
        match self.phase {
            Phase::Begin => {
                if self.config.mode == ClickMode::Sequence && self.config.sequence.len() == 0 {
                    self.phase = Phase::Finished;
                    ClickerAction::Finish { raise_stop: false }
                } else {
                    self.phase = Phase::AwaitStop;
                    ClickerAction::CheckStop
                }
            },
            Phase::AwaitStop => {
                let stop = match event {
                    ClickerEvent::StopFlag(b) => b,
                    _ => false,
                };
                if stop {
                    self.phase = Phase::Finished;
                    ClickerAction::Finish { raise_stop: false }
                } else if self.config.mode == ClickMode::Basic {
                    self.phase = Phase::FirstPress;
                    ClickerAction::Press(self.config.button)
                } else {
                    let row = self.config.sequence[self.item];
                    if row.delay_ms > 0 {
                        self.phase = Phase::AwaitDelay;
                        ClickerAction::Sleep(row.delay_ms)
                    } else {
                        self.phase = Phase::Moved;
                        ClickerAction::MoveMouse { x: row.x, y: row.y }
                    }
                }
            },
            Phase::AwaitDelay => {
                if event == (ClickerEvent::Slept { interrupted: true }) {
                    self.phase = Phase::Finished;
                    ClickerAction::Finish { raise_stop: false }
                } else {
                    let row = self.config.sequence[self.item];
                    self.phase = Phase::Moved;
                    ClickerAction::MoveMouse { x: row.x, y: row.y }
                }
            },
            Phase::Moved | Phase::DoublePause => {
                let button = self.button_now();
                self.phase = if self.phase == Phase::Moved {
                    Phase::FirstPress
                } else {
                    Phase::SecondPress
                };
                ClickerAction::Press(button)
            },
            Phase::FirstPress | Phase::SecondPress => {
                if self.phase == Phase::FirstPress && self.config.click_type == ClickType::Double {
                    self.phase = Phase::DoublePause;
                    ClickerAction::Pause(DOUBLE_CLICK_GAP_MS)
                } else {
                    self.clicks = self.clicks + 1;
                    self.phase = Phase::Counted;
                    ClickerAction::Publish(self.clicks)
                }
            },
            Phase::Counted => {
                let limit_reached = match self.config.max_clicks {
                    Some(m) => self.clicks >= m,
                    None => false,
                };
                if limit_reached {
                    self.phase = Phase::Finished;
                    ClickerAction::Finish { raise_stop: true }
                } else if self.config.mode == ClickMode::Basic {
                    let ms = jittered_interval(self.config.interval_ms, jitter);
                    self.phase = Phase::AwaitInterval;
                    ClickerAction::Sleep(ms)
                } else if self.item < self.config.sequence.len() - 1 {
                    self.item = self.item + 1;
                    self.phase = Phase::AwaitStop;
                    ClickerAction::CheckStop
                } else if !self.config.seq_loop {
                    self.phase = Phase::Finished;
                    ClickerAction::Finish { raise_stop: true }
                } else {
                    self.repeats = self.repeats + 1;
                    if self.config.seq_repeat_count > 0 && self.repeats >= self.config.seq_repeat_count {
                        self.phase = Phase::Finished;
                        ClickerAction::Finish { raise_stop: true }
                    } else {
                        self.item = 0;
                        self.phase = Phase::AwaitStop;
                        ClickerAction::CheckStop
                    }
                }
            },
            Phase::AwaitInterval => {
                if event == (ClickerEvent::Slept { interrupted: true }) {
                    self.phase = Phase::Finished;
                    ClickerAction::Finish { raise_stop: false }
                } else {
                    self.phase = Phase::AwaitStop;
                    ClickerAction::CheckStop
                }
            },
            Phase::Finished => ClickerAction::Finish { raise_stop: false },
        }
    }

    /// Whether `step` may be called with `event`: it is the event the last
    /// action asked for, a click about to be counted still fits the counter,
    /// and a random offset about to be drawn can be added to the interval.
    pub fn can_step(&self, event: ClickerEvent) -> (b: bool)
        ensures
            b == (self.expects(event) && (self.counts_next() ==> self.clicks < u64::MAX) && (
            self.draws_jitter() ==> self.config.runnable())),
    {
        let expected = match self.phase {
            Phase::AwaitStop => match event {
                ClickerEvent::StopFlag(_) => true,
                _ => false,
            },
            Phase::AwaitDelay | Phase::AwaitInterval => match event {
                ClickerEvent::Slept { .. } => true,
                _ => false,
            },
            Phase::Finished => false,
            _ => event == ClickerEvent::Proceed,
        };
        let counts = self.phase == Phase::SecondPress || (self.phase == Phase::FirstPress
            && self.config.click_type == ClickType::Single);
        expected && (!counts || self.clicks < u64::MAX) && (!self.draws_jitter_now()
            || self.config.is_runnable())
    }

    /// Advances the worker by one event. When the step schedules the pause
    /// after a basic-mode click, it draws the random offset itself.
    pub fn step(&mut self, event: ClickerEvent) -> (action: ClickerAction)
        requires
            old(self).wf(),
            old(self).expects(event),
            old(self).counts_next() ==> old(self).clicks < u64::MAX,
            old(self).draws_jitter() ==> old(self).config.runnable(),
        ensures
            exists|jitter: int|
                -(old(self).config.jitter_ms as int) <= jitter <= old(self).config.jitter_ms
                    && (*final(self), action) == #[trigger] old(self).next(event, jitter),
            !old(self).draws_jitter() ==> (*final(self), action) == old(self).next(event, 0),
            final(self).wf(),
    {
        let jitter: i64 = if self.draws_jitter_now() {
            draw_jitter(self.config.jitter_ms)
        } else {
            0
        };
        self.step_with_jitter(event, jitter)
    }

    fn draws_jitter_now(&self) -> (b: bool)
        ensures
            b == self.draws_jitter(),
    {
        let limit_reached = match self.config.max_clicks {
            Some(m) => self.clicks >= m,
            None => false,
        };
        self.phase == Phase::Counted && self.config.mode == ClickMode::Basic && !limit_reached
            && self.config.jitter_ms > 0
    }

    /// The button of the click in progress.
    fn button_now(&self) -> (button: ClickButton)
        requires
            self.wf(),
            self.config.mode == ClickMode::Sequence ==> self.item < self.seq_len(),
        ensures
            button == self.current_button(),
    {
        if self.config.mode == ClickMode::Basic {
            self.config.button
        } else {
            self.config.sequence[self.item].button
        }
    }
}

proof fn lemma_mul_succ(r: int, len: int)
    ensures
        (r + 1) * len == r * len + len,
{
    assert((r + 1) * len == r * len + len) by (nonlinear_arith);
}

proof fn lemma_mul_nonneg(r: int, len: int)
    requires
        r >= 0,
        len >= 0,
    ensures
        r * len >= 0,
{
    assert(r * len >= 0) by (nonlinear_arith)
        requires
            r >= 0,
            len >= 0,
    ;
}

proof fn lemma_mul_zero(r: int, len: int)
    ensures
        r == 0 ==> r * len == 0,
{
    assert(r == 0 ==> r * len == 0) by (nonlinear_arith);
}

proof fn lemma_mul_le(a: int, b: int, len: int)
    ensures
        a <= b && len >= 0 ==> a * len <= b * len,
{
    assert(a <= b && len >= 0 ==> a * len <= b * len) by (nonlinear_arith);
}

proof fn lemma_mul_at_least(a: int, len: int)
    ensures
        a >= 0 && len >= 1 ==> a * len >= a,
{
    assert(a >= 0 && len >= 1 ==> a * len >= a) by (nonlinear_arith);
}

/// The longest stretch an interruptible sleep goes without looking at the
/// stop flag, in milliseconds.
pub const SLEEP_CHUNK_MS: u64 = 50;

/// What an interruptible sleep does next.
#[derive(Debug, Clone, Copy, PartialEq, Eq, Structural)]
pub enum SleepStep {
    /// Sleep this many milliseconds, then ask again.
    Sleep(u64),
    /// The stop flag was set: end the sleep early.
    Interrupted,
    /// The whole time has been slept.
    Done,
}

/// An interruptible sleep: the time still to sleep, taken in chunks, with
/// the stop flag looked at before each chunk.
pub struct SleepPlan {
    pub remaining: u64,
}

/// The chunks an uninterrupted sleep of `ms` milliseconds is taken in.
pub open spec fn sleep_chunks(ms: nat) -> Seq<nat>
    decreases ms,
{
    if ms == 0 {
        Seq::empty()
    } else if ms <= SLEEP_CHUNK_MS {
        seq![ms]
    } else {
        seq![SLEEP_CHUNK_MS as nat] + sleep_chunks((ms - SLEEP_CHUNK_MS) as nat)
    }
}

pub open spec fn sum_of(s: Seq<nat>) -> nat
    decreases s.len(),
{
    if s.len() == 0 {
        0
    } else {
        s[0] + sum_of(s.drop_first())
    }
}

impl SleepPlan {
    /// A sleep of `ms` milliseconds, nothing slept yet.
    pub fn new(ms: u64) -> (plan: SleepPlan)
        ensures
            plan.remaining == ms,
    {
        SleepPlan { remaining: ms }
    }

    /// The next step, given whether the stop flag is set now. The flag only
    /// matters while time remains.
    pub fn next(&mut self, stop_requested: bool) -> (step: SleepStep)
        ensures
            old(self).remaining == 0 ==> step == SleepStep::Done && final(self).remaining == 0,
            old(self).remaining > 0 && stop_requested ==> step == SleepStep::Interrupted
                && final(self).remaining == old(self).remaining,
            old(self).remaining > 0 && !stop_requested ==> {
                let chunk = sleep_chunks(old(self).remaining as nat)[0];
                &&& step == SleepStep::Sleep(chunk as u64)
                &&& final(self).remaining == old(self).remaining - chunk
            },
    {
        if self.remaining == 0 {
            SleepStep::Done
        } else if stop_requested {
            SleepStep::Interrupted
        } else {
            let chunk: u64 = if self.remaining < SLEEP_CHUNK_MS {
                self.remaining
            } else {
                SLEEP_CHUNK_MS
            };
            self.remaining = self.remaining - chunk;
            SleepStep::Sleep(chunk)
        }
    }
}

/// An uninterrupted sleep of `ms` milliseconds is taken in `ceil(ms / 50)`
/// chunks of 1 to 50 milliseconds that add up to exactly `ms`; each step
/// sleeps the first chunk and leaves the chunks of what remains.
pub proof fn lemma_sleep_chunks(ms: nat)
    ensures
        sum_of(sleep_chunks(ms)) == ms,
        sleep_chunks(ms).len() == (ms + SLEEP_CHUNK_MS - 1) / (SLEEP_CHUNK_MS as int),
        forall|i: int| 0 <= i < sleep_chunks(ms).len() ==> 1 <= #[trigger] sleep_chunks(ms)[i] <= SLEEP_CHUNK_MS,
        ms > 0 ==> sleep_chunks((ms - sleep_chunks(ms)[0]) as nat) == sleep_chunks(ms).drop_first(),
    decreases ms,
{
    if ms > SLEEP_CHUNK_MS {
        let rest = (ms - SLEEP_CHUNK_MS) as nat;
        lemma_sleep_chunks(rest);
        let s = sleep_chunks(ms);
        assert(s.drop_first() =~= sleep_chunks(rest));
        assert forall|i: int| 0 <= i < s.len() implies 1 <= #[trigger] s[i] <= SLEEP_CHUNK_MS by {
            if i > 0 {
                assert(s[i] == sleep_chunks(rest)[i - 1]);
            }
        }
    } else if ms > 0 {
        let s = sleep_chunks(ms);
        assert(s.drop_first() =~= Seq::<nat>::empty());
        assert(sum_of(s.drop_first()) == 0);
    }
}

/// A run never makes more clicks than its limit allows: with a limit of `m`
/// it stops after `m` clicks, and after one click when `m` is zero.
pub proof fn lemma_click_limit(run: ClickerRun, m: u64)
    requires
        run.wf(),
        run.config.max_clicks == Some(m),
    ensures
        run.clicks <= (if m == 0 { 1 } else { m }),
{
}

/// A run stopped by its click limit has made exactly as many clicks as the
/// limit (one when the limit is zero), and raises the stop flag.
pub proof fn lemma_limit_stops_at_limit(run: ClickerRun, m: u64, jitter: int)
    requires
        run.wf(),
        run.config.max_clicks == Some(m),
        run.phase == Phase::Counted,
        run.config.limit_reached(run.clicks as int),
    ensures
        run.next(ClickerEvent::Proceed, jitter).1 == (ClickerAction::Finish { raise_stop: true }),
        run.clicks == (if m == 0 { 1 } else { m }),
{
}

/// A sequence run clicks each row at most once per pass: at most one pass
/// without looping, at most `seq_repeat_count` passes when that is set.
pub proof fn lemma_sequence_click_bound(run: ClickerRun)
    requires
        run.wf(),
        run.config.mode == ClickMode::Sequence,
    ensures
        !run.config.seq_loop ==> run.clicks <= run.seq_len(),
        run.config.seq_loop && run.config.seq_repeat_count > 0 ==> run.clicks <= run.config.seq_repeat_count
            * run.seq_len(),
{
}

/// In sequence mode the rows are clicked in order, round and round: the
/// click in progress is number `clicks` (counting from zero) and goes to row
/// `clicks % len`, pressing that row's button.
pub proof fn lemma_sequence_row_of_click(run: ClickerRun)
    requires
        run.wf(),
        run.config.mode == ClickMode::Sequence,
        run.phase.before_count(),
    ensures
        run.seq_len() > 0,
        run.item == (run.clicks as int) % run.seq_len(),
        run.current_button() == run.config.sequence@[(run.clicks as int) % run.seq_len()].button,
{
    let len = run.seq_len();
    let r = run.repeats as int;
    let i = run.item as int;
    assert((r * len + i) % len == i) by (nonlinear_arith)
        requires
            0 <= i < len,
            r >= 0,
    {
        vstd::arithmetic::div_mod::lemma_fundamental_div_mod_converse(r * len + i, len, r, i);
    }
}

/// Finding the stop flag set ends the run at once: no further press, no
/// further count, and the flag is left as it is.
pub proof fn lemma_stop_flag_ends_run(run: ClickerRun, jitter: int)
    requires
        run.wf(),
        run.phase == Phase::AwaitStop,
    ensures
        run.next(ClickerEvent::StopFlag(true), jitter).1 == (ClickerAction::Finish { raise_stop: false }),
        run.next(ClickerEvent::StopFlag(true), jitter).0.phase == Phase::Finished,
        run.next(ClickerEvent::StopFlag(true), jitter).0.clicks == run.clicks,
{
}

/// A run that finds the stop flag set at its first look ends without a
/// single click and without raising the flag, whatever its settings.
pub proof fn lemma_stopped_before_first_click(run: ClickerRun, jitter: int)
    requires
        run.wf(),
        run.phase == Phase::Begin,
    ensures
        run.next(ClickerEvent::Proceed, jitter).1 == ClickerAction::CheckStop ==> {
            let after = run.next(ClickerEvent::Proceed, jitter).0;
            &&& after.next(ClickerEvent::StopFlag(true), jitter).1 == (ClickerAction::Finish {
                raise_stop: false,
            })
            &&& after.next(ClickerEvent::StopFlag(true), jitter).0.clicks == 0
        },
        run.next(ClickerEvent::Proceed, jitter).1 != ClickerAction::CheckStop ==> run.next(
            ClickerEvent::Proceed,
            jitter,
        ).1 == (ClickerAction::Finish { raise_stop: false }),
{
}

/// A sequence run without a click limit that ends by itself has clicked
/// every row of every pass: once through without looping, `seq_repeat_count`
/// times through with a count set. Looping forever, it never ends by itself.
pub proof fn lemma_sequence_run_completes(run: ClickerRun, jitter: int)
    requires
        run.wf(),
        run.config.mode == ClickMode::Sequence,
        run.config.max_clicks is None,
        run.phase == Phase::Counted,
    ensures
        run.next(ClickerEvent::Proceed, jitter).1 == (ClickerAction::Finish { raise_stop: true }) ==> {
            &&& run.config.seq_loop && run.config.seq_repeat_count == 0 ==> false
            &&& !run.config.seq_loop ==> run.next(ClickerEvent::Proceed, jitter).0.clicks == run.seq_len()
            &&& run.config.seq_loop ==> run.next(ClickerEvent::Proceed, jitter).0.clicks
                == run.config.seq_repeat_count * run.seq_len()
        },
{
    let len = run.seq_len();
    let r = run.repeats as int;
    lemma_mul_succ(r, len);
    lemma_mul_zero(r, len);
}

/// Every press goes to the right button: in basic mode the configured
/// button, in sequence mode the button of the row being clicked, for the
/// first and the second press of a double click alike.
pub proof fn lemma_press_button(run: ClickerRun, event: ClickerEvent, jitter: int)
    requires
        run.wf(),
        run.expects(event),
    ensures
        run.next(event, jitter).1 matches ClickerAction::Press(b) ==> b == (if run.config.mode
            == ClickMode::Basic {
            run.config.button
        } else {
            run.config.sequence@[run.item as int].button
        }),
        run.config.mode == ClickMode::Sequence && (run.phase == Phase::Moved || run.phase
            == Phase::DoublePause) ==> run.next(event, jitter).1 == ClickerAction::Press(
            run.config.sequence@[run.item as int].button,
        ),
        run.config.mode == ClickMode::Basic && run.phase == Phase::DoublePause ==> run.next(
            event,
            jitter,
        ).1 == ClickerAction::Press(run.config.button),
        run.config.mode == ClickMode::Basic && run.phase == Phase::AwaitStop && event
            == ClickerEvent::StopFlag(false) ==> run.next(event, jitter).1 == ClickerAction::Press(
            run.config.button,
        ),
{
}

/// The pause after a basic-mode click below the limit is the interval plus
/// the offset that was drawn, and never less than one millisecond; for
/// intervals up to `i64::MAX` the interval is taken as it is.
pub proof fn lemma_basic_pause_is_interval_plus_offset(run: ClickerRun, jitter: int)
    requires
        run.wf(),
        run.config.mode == ClickMode::Basic,
        run.phase == Phase::Counted,
        !run.config.limit_reached(run.clicks as int),
        i64::MIN <= signed_interval(run.config.interval_ms) + jitter <= i64::MAX,
    ensures
        run.next(ClickerEvent::Proceed, jitter).1 == ClickerAction::Sleep(
            (if signed_interval(run.config.interval_ms) + jitter < 1 {
                1
            } else {
                signed_interval(run.config.interval_ms) + jitter
            }) as u64,
        ),
        run.config.interval_ms <= i64::MAX && run.config.interval_ms + jitter >= 1 ==> run.next(
            ClickerEvent::Proceed,
            jitter,
        ).1 == ClickerAction::Sleep((run.config.interval_ms + jitter) as u64),
        run.config.interval_ms <= i64::MAX && run.config.interval_ms + jitter < 1 ==> run.next(
            ClickerEvent::Proceed,
            jitter,
        ).1 == ClickerAction::Sleep(1),
{
}

/// The pause after a basic-mode click is at least one millisecond and, for
/// intervals up to `i64::MAX`, stays within the jitter of the interval.
pub proof fn lemma_basic_pause_bounds(run: ClickerRun, jitter: int)
    requires
        run.wf(),
        run.config.mode == ClickMode::Basic,
        run.phase == Phase::Counted,
        !run.config.limit_reached(run.clicks as int),
        run.config.runnable(),
        -(run.config.jitter_ms as int) <= jitter <= run.config.jitter_ms,
    ensures
        run.next(ClickerEvent::Proceed, jitter).1 is Sleep,
        run.next(ClickerEvent::Proceed, jitter).1->Sleep_0 >= 1,
        run.config.interval_ms <= i64::MAX ==> {
            let ms = run.next(ClickerEvent::Proceed, jitter).1->Sleep_0 as int;
            &&& ms >= run.config.interval_ms - run.config.jitter_ms
            &&& ms <= run.config.interval_ms + run.config.jitter_ms || ms == 1
        },
{
}

} // verus!

//! Click settings and the timing arithmetic of the clicking worker.

use rand::Rng;
use vstd::prelude::*;

verus! {

/// Mouse button that a click uses.
#[derive(Debug, Clone, Copy, PartialEq, Eq, Structural)]
pub enum ClickButton {
    Left,
    Right,
    Middle,
}

/// A single click, or two clicks in quick succession.
#[derive(Debug, Clone, Copy, PartialEq, Eq, Structural)]
pub enum ClickType {
    Single,
    Double,
}

/// Click where the mouse is, or walk through a list of screen positions.
#[derive(Debug, Clone, Copy, PartialEq, Eq, Structural)]
pub enum ClickMode {
    Basic,
    Sequence,
}

/// One row of a click sequence: a screen position, the button to press
/// there, and how long to wait before moving to it.
#[derive(Debug, Clone, Copy, PartialEq, Eq, Structural)]
pub struct SequenceItem {
    pub x: i32,
    pub y: i32,
    pub button: ClickButton,
    pub delay_ms: u64,
}

/// Everything the clicking worker needs to know for one run.
pub struct ClickerConfig {
    pub interval_ms: u64,
    pub jitter_ms: u64,
    pub button: ClickButton,
    pub click_type: ClickType,
    pub max_clicks: Option<u64>,
    pub mode: ClickMode,
    pub sequence: Vec<SequenceItem>,
    pub seq_loop: bool,
    pub seq_repeat_count: u64,
}

/// The pause between two double-click presses, in milliseconds.
pub const DOUBLE_CLICK_GAP_MS: u64 = 40;

/// The interval read as a signed 64-bit number, the way the worker reads it:
/// values above `i64::MAX` wrap around to negative numbers.
pub open spec fn signed_interval(interval_ms: u64) -> int {
    if interval_ms <= i64::MAX {
        interval_ms as int
    } else {
        interval_ms - 0x1_0000_0000_0000_0000int
    }
}

/// The pause after a click, for a given random offset: the signed interval
/// plus the offset, and never less than one millisecond.
pub open spec fn pause_after_click(interval_ms: u64, jitter: int) -> int {
    let total = signed_interval(interval_ms) + jitter;
    if total < 1 { 1 } else { total }
}

/// Offsets in `-jitter_ms ..= jitter_ms` can be drawn and added to the signed
/// interval without leaving the range of `i64`.
pub open spec fn jitter_fits(interval_ms: u64, jitter_ms: u64) -> bool {
    jitter_ms == 0 || {
        &&& jitter_ms <= i64::MAX
        &&& i64::MIN <= signed_interval(interval_ms) - jitter_ms
        &&& signed_interval(interval_ms) + jitter_ms <= i64::MAX
    }
}

impl ClickerConfig {
    /// The worker can run this configuration without any arithmetic leaving
    /// its range: only basic mode draws random offsets.
    pub open spec fn runnable(&self) -> bool {
        self.mode == ClickMode::Basic ==> jitter_fits(self.interval_ms, self.jitter_ms)
    }

    /// Whether the worker can run this configuration.
    pub fn is_runnable(&self) -> (b: bool)
        ensures
            b == self.runnable(),
    {
        if self.mode != ClickMode::Basic || self.jitter_ms == 0 {
            return true;
        }
        if self.jitter_ms > 0x7fff_ffff_ffff_ffffu64 {
            return false;
        }
        proof {
            lemma_signed_interval(self.interval_ms);
        }
        let base: i128 = (self.interval_ms as i64) as i128;
        let jitter: i128 = self.jitter_ms as i128;
        base - jitter >= -0x8000_0000_0000_0000i128 && base + jitter <= 0x7fff_ffff_ffff_ffffi128
    }
}

proof fn lemma_signed_interval(interval_ms: u64)
    ensures
        (interval_ms as i64) as int == signed_interval(interval_ms),
{
    assert(interval_ms <= 0x7fff_ffff_ffff_ffffu64 ==> (interval_ms as i64) as int == interval_ms as int)
        by (bit_vector);
    assert(interval_ms > 0x7fff_ffff_ffff_ffffu64 ==> (interval_ms as i64) as int == interval_ms as int
        - 0x1_0000_0000_0000_0000int) by (bit_vector);
}

/// The pause in milliseconds after a click, given the random offset that was
/// drawn for it.
pub fn jittered_interval(interval_ms: u64, jitter: i64) -> (ms: u64)
    requires
        i64::MIN <= signed_interval(interval_ms) + jitter <= i64::MAX,
    ensures
        ms == pause_after_click(interval_ms, jitter as int),
        ms >= 1,
{
    proof {
        lemma_signed_interval(interval_ms);
    }
    let base: i64 = interval_ms as i64;
    let total: i64 = base + jitter;
    if total < 1 {
        1
    } else {
        total as u64
    }
}

/// `rand::Rng::gen_range` on the inclusive range `low..=high` of the thread's
/// generator. Its source asserts that the range is not empty and then
/// returns a value inside it; which value comes back is left to chance.
#[verifier::external_body]
fn random_in_range(low: i64, high: i64) -> (r: i64)
    requires
        low <= high,
    ensures
        low <= r <= high,
{
    rand::thread_rng().gen_range(low..=high)
}

/// Draws the random offset for one pause: zero when there is no jitter,
/// else some value in `-jitter_ms ..= jitter_ms`.
pub fn draw_jitter(jitter_ms: u64) -> (jitter: i64)
    requires
        jitter_ms <= i64::MAX,
    ensures
        -(jitter_ms as int) <= jitter <= jitter_ms,
        jitter_ms == 0 ==> jitter == 0,
{
    if jitter_ms > 0 {
        let bound: i64 = jitter_ms as i64;
        random_in_range(-bound, bound)
    } else {
        0
    }
}

} // verus!

//! Sleep timer: fade the volume out over the last stretch, then stop.
use vstd::prelude::*;
use std::time::Instant;
use crate::clock::{duration_millis, instant_elapsed, instant_now};
use crate::text::{decimal, push_decimal, string_from_chars};

verus! {

/// Sleep timer state.
#[derive(Debug)]
pub struct SleepTimer {
    /// When the timer was started.
    started_at: Instant,
    /// Total timer duration in seconds.
    total_secs: u64,
    /// Duration of the fade-out at the end, in seconds.
    fade_secs: u64,
}

/// Timer status returned on each tick.
#[derive(Debug, Clone, PartialEq, Eq)]
pub enum TimerStatus {
    /// Timer is active, not yet fading.
    Active { remaining_ms: u128 },
    /// Timer is in the fade-out phase; the volume is to be scaled by
    /// `volume_permille / 1000` (1000 at the start of the fade, 0 at its end).
    Fading { volume_permille: u128, remaining_ms: u128 },
    /// Timer has expired: pause playback.
    Expired,
}

/// What the timer reports `elapsed_ms` after it was started.
pub open spec fn timer_status(total_secs: int, fade_secs: int, elapsed_ms: int) -> TimerStatus {
    let total_ms = total_secs * 1000;
    if elapsed_ms >= total_ms {
        TimerStatus::Expired
    } else {
        let remaining = total_ms - elapsed_ms;
        if remaining <= fade_secs * 1000 {
            TimerStatus::Fading { volume_permille: (remaining / fade_secs) as u128, remaining_ms: remaining as u128 }
        } else {
            TimerStatus::Active { remaining_ms: remaining as u128 }
        }
    }
}

/// The timer only moves forward: once expired it stays expired, and
/// during the fade the volume never rises as time passes.
pub proof fn lemma_timer_monotone(total_secs: int, fade_secs: int, e1: int, e2: int)
    requires
        0 <= fade_secs,
        e1 <= e2,
    ensures
        timer_status(total_secs, fade_secs, e1) is Expired ==> timer_status(total_secs, fade_secs, e2) is Expired,
        timer_status(total_secs, fade_secs, e1) is Fading && timer_status(total_secs, fade_secs, e2) is Fading
            ==> timer_status(total_secs, fade_secs, e2)->volume_permille <= timer_status(
            total_secs,
            fade_secs,
            e1,
        )->volume_permille,
{
    let total_ms = total_secs * 1000;
    if e2 < total_ms && total_ms - e1 <= fade_secs * 1000 && fade_secs > 0 {
        vstd::arithmetic::div_mod::lemma_div_is_ordered(total_ms - e2, total_ms - e1, fade_secs);
        assert((total_ms - e1) / fade_secs <= 1000) by {
            vstd::arithmetic::div_mod::lemma_div_is_ordered(total_ms - e1, fade_secs * 1000, fade_secs);
            vstd::arithmetic::div_mod::lemma_div_multiples_vanish(1000, fade_secs);
        }
        assert((total_ms - e2) / fade_secs >= 0) by {
            vstd::arithmetic::div_mod::lemma_div_pos_is_pos(total_ms - e2, fade_secs);
        }
    }
}

/// A count written with at least two digits, a leading zero added below ten.
pub open spec fn two_digits(n: nat) -> Seq<char> {
    (if n < 10 { seq!['0'] } else { Seq::empty() }) + decimal(n)
}

/// The remaining time shown to the user, `MM:SS` of whole seconds.
pub open spec fn clock_text(remaining_ms: int) -> Seq<char> {
    let secs = remaining_ms / 1000;
    let m = secs / 60;
    let s = secs % 60;
    two_digits(m as nat) + seq![':'] + two_digits(s as nat)
}

/// The remaining time shown `elapsed_ms` after the start of a timer of
/// `total_secs` seconds.
pub open spec fn display_after(total_secs: int, elapsed_ms: int) -> Seq<char> {
    clock_text(if elapsed_ms >= total_secs * 1000 { 0 } else { total_secs * 1000 - elapsed_ms })
}

/// Preset durations for quick selection: minutes and label.
pub fn timer_presets() -> (r: Vec<(u64, &'static str)>)
    ensures
        r@.len() == 6,
        r@[0].0 == 15 && r@[1].0 == 30 && r@[2].0 == 45 && r@[3].0 == 60 && r@[4].0 == 90 && r@[5].0 == 120,
        r@[0].1@ == "15 min"@ && r@[1].1@ == "30 min"@ && r@[2].1@ == "45 min"@,
        r@[3].1@ == "1 hour"@ && r@[4].1@ == "1.5 hours"@ && r@[5].1@ == "2 hours"@,
{
    vec![
        (15, "15 min"),
        (30, "30 min"),
        (45, "45 min"),
        (60, "1 hour"),
        (90, "1.5 hours"),
        (120, "2 hours"),
    ]
}

impl SleepTimer {
    /// Total duration in seconds.
    pub closed spec fn total(&self) -> int {
        self.total_secs as int
    }

    /// Fade-out duration in seconds.
    pub closed spec fn fade(&self) -> int {
        self.fade_secs as int
    }

    /// Creates a new sleep timer that fires after `minutes`, started now; the
    /// fade lasts 30 s, or half the timer when that is shorter.
    pub fn new(minutes: u64) -> (r: Self)
        requires
            minutes * 60 <= u64::MAX,
        ensures
            r.total() == minutes * 60,
            r.fade() == vstd::math::min(30, minutes * 60 / 2),
    {
        let total = minutes * 60;
        let half = total / 2;
        let fade = if half < 30 { half } else { 30 };
        SleepTimer { started_at: instant_now(), total_secs: total, fade_secs: fade }
    }

    /// Returns the total duration of this timer in minutes.
    pub fn total_minutes(&self) -> (r: u64)
        ensures
            r == self.total() / 60,
    {
        self.total_secs / 60
    }

    /// The status `elapsed_ms` after the start.
    pub fn status_after(&self, elapsed_ms: u128) -> (r: TimerStatus)
        ensures
            r == timer_status(self.total(), self.fade(), elapsed_ms as int),
    {
        let total_ms = self.total_secs as u128 * 1000;
        if elapsed_ms >= total_ms {
            return TimerStatus::Expired;
        }
        let remaining = total_ms - elapsed_ms;
        if remaining <= self.fade_secs as u128 * 1000 {
            let permille = remaining / (self.fade_secs as u128);
            TimerStatus::Fading { volume_permille: permille, remaining_ms: remaining }
        } else {
            TimerStatus::Active { remaining_ms: remaining }
        }
    }

    /// Check the timer status now. Call on every playback tick.
    pub fn tick(&self) -> (r: TimerStatus)
        ensures
            exists|e: int| 0 <= e <= u128::MAX && r == #[trigger] timer_status(self.total(), self.fade(), e),
    {
        let e = duration_millis(&instant_elapsed(&self.started_at));
        self.status_after(e)
    }

    /// Remaining time `elapsed_ms` after the start, as `MM:SS`.
    pub fn remaining_display_after(&self, elapsed_ms: u128) -> (r: String)
        ensures
            r@ == display_after(self.total(), elapsed_ms as int),
    {
        let total_ms = self.total_secs as u128 * 1000;
        let remaining = if elapsed_ms >= total_ms { 0 } else { total_ms - elapsed_ms };
        let secs = (remaining / 1000) as u64;
        let m = secs / 60;
        let s = secs % 60;
        let mut out: Vec<char> = Vec::new();
        if m < 10 {
            out.push('0');
        }
        push_decimal(&mut out, m);
        out.push(':');
        if s < 10 {
            out.push('0');
        }
        push_decimal(&mut out, s);
        assert(out@ =~= clock_text(remaining as int));
        string_from_chars(&out)
    }

    /// Remaining time now, formatted as `MM:SS`.
    pub fn remaining_display(&self) -> (r: String)
        ensures
            exists|e: int| 0 <= e <= u128::MAX && r@ == #[trigger] display_after(self.total(), e),
    {
        let e = duration_millis(&instant_elapsed(&self.started_at));
        self.remaining_display_after(e)
    }
}

} // verus!

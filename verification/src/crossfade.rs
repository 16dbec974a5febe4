//! Crossfade between the end of one song and the start of the next.
//!
//! The mixer keeps the bookkeeping of a crossfade: which samples of the next
//! song are waiting, how far into the fade the mix has progressed and when
//! it is over. The sample arithmetic itself (the gain curves) is applied by
//! the caller to each window the mixer hands out.
use vstd::prelude::*;
use crate::text::str_eq;

verus! {

broadcast use vstd::string::group_string_axioms;

/// Crossfade curve type.
#[derive(Debug, Clone, Copy, PartialEq, Eq, Structural)]
pub enum CrossfadeCurve {
    /// Linear: out_gain = 1 - t, in_gain = t
    Linear,
    /// Equal power: out_gain = cos(t * π/2), in_gain = sin(t * π/2)
    EqualPower,
    /// Overlap-only: both streams at full volume, just overlap
    Overlap,
}

/// The id of a curve.
pub open spec fn curve_id(c: CrossfadeCurve) -> Seq<char> {
    match c {
        CrossfadeCurve::Linear => "linear"@,
        CrossfadeCurve::EqualPower => "equal_power"@,
        CrossfadeCurve::Overlap => "overlap"@,
    }
}

/// The curve with the given id; unknown ids mean `Linear`.
pub open spec fn curve_from_id(id: Seq<char>) -> CrossfadeCurve {
    if id == "equal_power"@ {
        CrossfadeCurve::EqualPower
    } else if id == "overlap"@ {
        CrossfadeCurve::Overlap
    } else {
        CrossfadeCurve::Linear
    }
}

impl CrossfadeCurve {
    /// Stable id used in the settings file.
    pub fn id(&self) -> (r: &'static str)
        ensures
            r@ == curve_id(*self),
    {
        match self {
            CrossfadeCurve::Linear => "linear",
            CrossfadeCurve::EqualPower => "equal_power",
            CrossfadeCurve::Overlap => "overlap",
        }
    }

    /// The curve with the given id; unknown ids mean `Linear`.
    pub fn from_id(id: &str) -> (r: Self)
        ensures
            r == curve_from_id(id@),
    {
        if str_eq(id, "equal_power") {
            CrossfadeCurve::EqualPower
        } else if str_eq(id, "overlap") {
            CrossfadeCurve::Overlap
        } else {
            CrossfadeCurve::Linear
        }
    }

    /// Human-readable name.
    pub fn label(&self) -> (r: &'static str)
        ensures
            r@ == (match *self {
                CrossfadeCurve::Linear => "Linear"@,
                CrossfadeCurve::EqualPower => "Equal Power"@,
                CrossfadeCurve::Overlap => "Overlap"@,
            }),
    {
        match self {
            CrossfadeCurve::Linear => "Linear",
            CrossfadeCurve::EqualPower => "Equal Power",
            CrossfadeCurve::Overlap => "Overlap",
        }
    }
}

/// Reading back the id of a curve gives the curve again.
pub proof fn lemma_curve_id_roundtrip(c: CrossfadeCurve)
    ensures
        curve_from_id(curve_id(c)) == c,
{
    reveal_strlit("linear");
    reveal_strlit("equal_power");
    reveal_strlit("overlap");
    assert("linear"@.len() != "equal_power"@.len());
    assert("overlap"@.len() != "equal_power"@.len());
    assert("linear"@[0] != "overlap"@[0]);
}

/// Configuration for crossfade.
#[derive(Debug, Clone, Copy)]
pub struct CrossfadeConfig {
    /// Duration of the crossfade in milliseconds (0 = gapless with no fade).
    pub duration_ms: u32,
    /// Curve type for gain interpolation.
    pub curve: CrossfadeCurve,
    /// Whether crossfade is enabled at all.
    pub enabled: bool,
}

impl Default for CrossfadeConfig {
    fn default() -> (r: Self)
        ensures
            r.duration_ms == 3000,
            r.curve == CrossfadeCurve::EqualPower,
            !r.enabled,
    {
        CrossfadeConfig { duration_ms: 3000, curve: CrossfadeCurve::EqualPower, enabled: false }
    }
}

/// The part of the fade that the next call mixes: current-song samples
/// `0..len` are mixed with next-song samples `0..len`, at fade positions
/// `start..start + len` out of `total`.
#[derive(Debug, Clone, Copy)]
pub struct MixWindow {
    pub start: usize,
    pub total: usize,
    pub len: usize,
}

/// Crossfade mixer state; `S` is the sample type.
pub struct CrossfadeMixer<S> {
    /// Config (may be updated at any time).
    config: CrossfadeConfig,
    /// Pre-decoded "next song" samples buffer.
    next_buf: Vec<S>,
    /// How many samples of crossfade have been consumed so far.
    crossfade_pos: usize,
    /// Total number of samples in the crossfade region.
    crossfade_total: usize,
    /// Whether a crossfade is in progress.
    active: bool,
}

impl<S> CrossfadeMixer<S> {
    /// The configuration in force.
    pub closed spec fn settings(&self) -> CrossfadeConfig {
        self.config
    }

    /// The configuration in force.
    pub fn config(&self) -> (r: CrossfadeConfig)
        ensures
            r == self.settings(),
    {
        self.config
    }

    /// Replaces the configuration (any fade in progress continues).
    pub fn set_config(&mut self, config: CrossfadeConfig)
        ensures
            final(self).settings() == config,
            final(self).pending() == old(self).pending(),
            final(self).position() == old(self).position(),
            final(self).total() == old(self).total(),
            final(self).in_progress() == old(self).in_progress(),
    {
        self.config = config;
    }

    /// The waiting next-song samples.
    pub closed spec fn pending(&self) -> Seq<S> {
        self.next_buf@
    }

    /// Fade samples consumed so far.
    pub closed spec fn position(&self) -> int {
        self.crossfade_pos as int
    }

    /// Fade length in samples.
    pub closed spec fn total(&self) -> int {
        self.crossfade_total as int
    }

    /// A crossfade is in progress.
    pub closed spec fn in_progress(&self) -> bool {
        self.active
    }

    /// A mixer with nothing buffered.
    pub fn new(config: CrossfadeConfig) -> (r: Self)
        ensures
            r.settings() == config,
            r.pending() == Seq::<S>::empty(),
            r.position() == 0,
            r.total() == 0,
            !r.in_progress(),
    {
        CrossfadeMixer { config, next_buf: Vec::new(), crossfade_pos: 0, crossfade_total: 0, active: false }
    }

    /// Starts a crossfade into `next_samples` (the first samples of the next
    /// song). When crossfade is disabled or has zero length the samples are
    /// only buffered for a gapless handoff.
    pub fn begin_crossfade(&mut self, next_samples: Vec<S>, sample_rate: u32, channels: usize)
        requires
            old(self).settings().duration_ms as int * sample_rate as int / 1000 <= usize::MAX,
            old(self).settings().duration_ms as int * sample_rate as int / 1000 * channels as int
                <= usize::MAX,
        ensures
            final(self).settings() == old(self).settings(),
            final(self).pending() == next_samples@,
            !old(self).settings().enabled || old(self).settings().duration_ms == 0 ==> {
                &&& !final(self).in_progress()
                &&& final(self).position() == old(self).position()
                &&& final(self).total() == old(self).total()
            },
            old(self).settings().enabled && old(self).settings().duration_ms > 0 ==> {
                &&& final(self).in_progress()
                &&& final(self).position() == 0
                &&& final(self).total() == old(self).settings().duration_ms as int * sample_rate as int
                    / 1000 * channels as int
            },
    {
        if !self.config.enabled || self.config.duration_ms == 0 {
            self.next_buf = next_samples;
            self.active = false;
            return;
        }
        let d = self.config.duration_ms as u64;
        let sr = sample_rate as u64;
        assert(d * sr <= 0xffff_ffff * 0xffff_ffff) by (nonlinear_arith)
            requires
                d <= 0xffff_ffff,
                sr <= 0xffff_ffff,
        ;
        let frames = (d * sr / 1000) as usize;
        self.crossfade_total = frames * channels;
        self.crossfade_pos = 0;
        self.next_buf = next_samples;
        self.active = true;
    }

    /// Opens the next mix window for a current-song buffer of `cur_len`
    /// samples. `None` when there is nothing to mix; when a fade in progress
    /// has run out of room, it ends here.
    pub fn start_mix(&mut self, cur_len: usize) -> (r: Option<MixWindow>)
        ensures
            final(self).settings() == old(self).settings(),
            final(self).pending() == old(self).pending(),
            final(self).position() == old(self).position(),
            final(self).total() == old(self).total(),
            ({
                let remaining = if old(self).total() > old(self).position() {
                    old(self).total() - old(self).position()
                } else {
                    0
                };
                let len = vstd::math::min(vstd::math::min(cur_len as int, remaining), old(self).pending().len() as int);
                if !old(self).in_progress() || old(self).pending().len() == 0 {
                    r is None && final(self).in_progress() == old(self).in_progress()
                } else if len == 0 {
                    r is None && !final(self).in_progress()
                } else {
                    &&& r matches Some(w)
                    &&& w.start == old(self).position()
                    &&& w.total == old(self).total()
                    &&& w.len == len
                    &&& final(self).in_progress()
                }
            }),
    {
        if !self.active || self.next_buf.len() == 0 {
            return None;
        }
        let remaining = self.crossfade_total.saturating_sub(self.crossfade_pos);
        let mut len = cur_len;
        if remaining < len {
            len = remaining;
        }
        if self.next_buf.len() < len {
            len = self.next_buf.len();
        }
        if len == 0 {
            self.active = false;
            return None;
        }
        Some(MixWindow { start: self.crossfade_pos, total: self.crossfade_total, len })
    }

    /// The waiting next-song samples (the caller mixes the first `len` of a
    /// window into its buffer).
    pub fn next_samples(&self) -> (r: &Vec<S>)
        ensures
            r@ == self.pending(),
    {
        &self.next_buf
    }

    /// Closes a mix window of `len` samples: they leave the buffer and the
    /// fade advances; it ends when it reaches its total. Returns `len`.
    pub fn finish_mix(&mut self, len: usize) -> (r: usize)
        requires
            len <= old(self).pending().len(),
            old(self).position() + len <= old(self).total(),
        ensures
            r == len,
            final(self).settings() == old(self).settings(),
            final(self).pending() == old(self).pending().subrange(len as int, old(self).pending().len() as int),
            final(self).position() == old(self).position() + len,
            final(self).total() == old(self).total(),
            final(self).in_progress() == (old(self).in_progress() && final(self).position() < final(self).total()),
    {
        self.crossfade_pos = self.crossfade_pos + len;
        let mut old_buf: Vec<S> = Vec::new();
        std::mem::swap(&mut old_buf, &mut self.next_buf);
        let tail = old_buf.split_off(len);
        self.next_buf = tail;
        if self.crossfade_pos >= self.crossfade_total {
            self.active = false;
        }
        len
    }

    /// Check if crossfade is currently active.
    pub fn is_active(&self) -> (r: bool)
        ensures
            r == self.in_progress(),
    {
        self.active
    }

    /// Takes the remaining next-song samples, leaving the buffer empty.
    pub fn take_remaining(&mut self) -> (r: Vec<S>)
        ensures
            r@ == old(self).pending(),
            final(self).pending() == Seq::<S>::empty(),
            final(self).settings() == old(self).settings(),
            final(self).position() == old(self).position(),
            final(self).total() == old(self).total(),
            final(self).in_progress() == old(self).in_progress(),
    {
        let mut out: Vec<S> = Vec::new();
        std::mem::swap(&mut out, &mut self.next_buf);
        out
    }

    /// Reset crossfade state (e.g., on seek or stop).
    pub fn reset(&mut self)
        ensures
            final(self).settings() == old(self).settings(),
            final(self).pending() == Seq::<S>::empty(),
            final(self).position() == 0,
            final(self).total() == 0,
            !final(self).in_progress(),
    {
        self.next_buf = Vec::new();
        self.crossfade_pos = 0;
        self.crossfade_total = 0;
        self.active = false;
    }
}

} // verus!

//! The music domain's own rules: progress tracking for sources without a timeline,
//! the fallback track name, source selection and the KuGou status decision.

use vstd::prelude::*;
use crate::kugou::{is_source, spec_is_source, status as kugou_plain_status, KugouStatus, PositionSample};
use crate::kugou_deploy::{deploy_inv, ensure_applied, patch_helper_plan, revert, spec_mode_from_arg, spec_unquote_path, status as enhance_status, DeployAction, DeployFlow, DeployStage, EnhanceStatus, HelperMode, PatchState};
use crate::lyrics::LyricsData;
use crate::settings::{DiagnosticsToggles, MusicConfig};
use crate::provider::{clone_opt, opt_view, ProviderState, ProviderView};
use crate::resolver::{slot_get, fetches_of, resolved_of, resolver_after, track_key, track_key_text, Fetches, ResolvedView, Resolver};
use crate::text::{chars_of, concat_chars, decimal, decimal_text, join3, same_text, slice_chars, string_of};

verus! {

/// A sample that differs from the own extrapolation by more than this many
/// milliseconds replaces it.
pub const SAMPLE_TOLERANCE_MS: i64 = 800;

/// A sample taken this many milliseconds or more before the current track started is
/// a leftover of the previous track.
pub const SAMPLE_STALE_MS: i64 = 300;

/// Bound on the epoch times and positions the tracker is given (about 140 000 years in
/// milliseconds).
pub const TIME_LIMIT: i64 = 0x10_0000_0000_0000;

/// Bound on the tracker's anchor position: with one more observation's step it still
/// fits `i64`.
pub const ANCHOR_LIMIT: i64 = 0x7E00_0000_0000_0000;

/// How far one observation can move the anchor position.
pub const ANCHOR_STEP: i64 = 0x80_0000_0000_0000;

/// The player's clock speed relative to the wall clock, as the exact ratio
/// `num / den` of two measured intervals.
#[derive(Debug, Clone, Copy, PartialEq, Eq)]
pub struct ClockRate {
    pub num: i64,
    pub den: i64,
}

/// Progress tracking for a source without a timeline.
///
/// Position is extrapolated from an anchor with the wall clock scaled by the learned
/// player clock rate; a track change restarts at zero, a pause freezes, resuming
/// continues; a fresh sample from the player replaces the extrapolation when they
/// differ by more than [`SAMPLE_TOLERANCE_MS`].
#[derive(Debug)]
pub struct ProgressTracker {
    /// Identity of the current track (title|artist|source).
    pub track: String,
    pub playing: bool,
    /// `anchor_pos_ms` is the position at `anchor_epoch_ms`.
    pub anchor_pos_ms: i64,
    pub anchor_epoch_ms: i64,
    /// When the current track started, to recognize samples of the previous one.
    pub track_start_ms: i64,
    /// The sample time already reconciled, so one sample corrects at most once.
    pub sample_epoch_ms: i64,
    /// The last sample used, to measure the player clock rate.
    pub last_sample: Option<PositionSample>,
    /// Player clock rate (1/1 = wall clock).
    pub rate: ClockRate,
}

/// The abstract state of a [`ProgressTracker`].
pub struct TrackerState {
    pub track: Seq<char>,
    pub playing: bool,
    pub anchor_pos: int,
    pub anchor_epoch: int,
    pub track_start: int,
    pub sample_epoch: int,
    pub last_sample: Option<PositionSample>,
    pub rate_num: int,
    pub rate_den: int,
}

impl View for ProgressTracker {
    type V = TrackerState;

    open spec fn view(&self) -> TrackerState {
        TrackerState {
            track: self.track@,
            playing: self.playing,
            anchor_pos: self.anchor_pos_ms as int,
            anchor_epoch: self.anchor_epoch_ms as int,
            track_start: self.track_start_ms as int,
            sample_epoch: self.sample_epoch_ms as int,
            last_sample: self.last_sample,
            rate_num: self.rate.num as int,
            rate_den: self.rate.den as int,
        }
    }
}

pub open spec fn abs(x: int) -> int {
    if x < 0 {
        -x
    } else {
        x
    }
}

pub open spec fn in_time_range(x: int) -> bool {
    -TIME_LIMIT <= x <= TIME_LIMIT
}

/// The measured rate `num / den` lies in the plausible band [0.9, 1.1].
pub open spec fn plausible_rate(num: int, den: int) -> bool {
    den > 0 && 9 * den <= 10 * num && 10 * num <= 11 * den
}

/// A sample whose fields are within the time range.
pub open spec fn sample_ok(s: PositionSample) -> bool {
    in_time_range(s.position_ms as int) && in_time_range(s.at_epoch_ms as int)
}

impl TrackerState {
    /// The state's numbers stay within the bounds that keep the arithmetic exact.
    pub open spec fn wf(self) -> bool {
        &&& abs(self.anchor_pos) <= ANCHOR_LIMIT
        &&& self.bounded()
    }

    /// Every number but the anchor position is within its bound.
    pub open spec fn bounded(self) -> bool {
        &&& in_time_range(self.anchor_epoch)
        &&& -2 * TIME_LIMIT <= self.track_start <= 2 * TIME_LIMIT
        &&& in_time_range(self.sample_epoch)
        &&& (self.last_sample matches Some(s) ==> sample_ok(s))
        &&& ((self.rate_num == 0 && self.rate_den == 1) || (plausible_rate(self.rate_num, self.rate_den)
            && self.rate_den <= 2 * TIME_LIMIT))
    }

    /// How far the player clock advances from `from` to `to`: nothing while paused or
    /// when `to` is not later; otherwise the interval scaled by the rate, rounded to the
    /// nearest millisecond (halves up).
    pub open spec fn elapsed(self, from: int, to: int) -> int {
        if !self.playing || to <= from {
            0
        } else {
            (2 * (to - from) * self.rate_num + self.rate_den) / (2 * self.rate_den)
        }
    }

    /// The extrapolated position at time `at`.
    pub open spec fn position_at(self, at: int) -> int {
        self.anchor_pos + self.elapsed(self.anchor_epoch, at)
    }

    /// The state after taking note of the current track and play state (before any
    /// sample): a new track restarts at zero (or at the sample, the first time a track is
    /// seen at all); a change of play state re-anchors at the current position.
    pub open spec fn note_track(
        self,
        track: Seq<char>,
        playing: bool,
        now: int,
        sample: Option<PositionSample>,
    ) -> TrackerState {
        if track != self.track {
            let fresh = TrackerState {
                track,
                playing,
                anchor_pos: 0,
                anchor_epoch: now,
                track_start: now,
                sample_epoch: 0,
                last_sample: None,
                rate_num: 1,
                rate_den: 1,
            };
            match sample {
                Some(s) if self.track.len() == 0 => TrackerState {
                    anchor_pos: s.position_ms as int,
                    anchor_epoch: s.at_epoch_ms as int,
                    track_start: s.at_epoch_ms - s.position_ms,
                    sample_epoch: s.at_epoch_ms as int,
                    last_sample: Some(s),
                    ..fresh
                },
                _ => fresh,
            }
        } else if playing != self.playing {
            TrackerState {
                anchor_pos: self.position_at(now),
                anchor_epoch: now,
                playing,
                ..self
            }
        } else {
            self
        }
    }

    /// The sample is one to reconcile: not yet used, not older than the track, and not
    /// beyond the track's duration.
    pub open spec fn sample_usable(self, s: PositionSample, duration: Option<i64>) -> bool {
        &&& s.at_epoch_ms != self.sample_epoch
        &&& !(s.at_epoch_ms + SAMPLE_STALE_MS < self.track_start)
        &&& (duration matches Some(d) ==> s.position_ms <= d)
    }

    /// The rate after measuring the player clock between the last sample and `s`: kept
    /// unless both samples come while playing, the later one after the earlier, and the
    /// measured ratio is plausible.
    pub open spec fn learn_rate(self, s: PositionSample) -> TrackerState {
        match self.last_sample {
            Some(prev) => {
                let d_pos = s.position_ms - prev.position_ms;
                let d_at = s.at_epoch_ms - prev.at_epoch_ms;
                if d_at > 0 && self.playing && plausible_rate(d_pos, d_at) {
                    TrackerState { rate_num: d_pos, rate_den: d_at, ..self }
                } else {
                    self
                }
            },
            None => self,
        }
    }

    /// The state after reconciling a usable sample: the rate is learned, and when the
    /// sample (carried forward to `now`) differs from the extrapolation by more than the
    /// tolerance it becomes the new anchor.
    pub open spec fn reconcile(self, s: PositionSample, now: int) -> TrackerState {
        let learned = self.learn_rate(s);
        let sample_now = s.position_ms + learned.elapsed(s.at_epoch_ms as int, now);
        let anchored = if abs(sample_now - learned.position_at(now)) > SAMPLE_TOLERANCE_MS {
            TrackerState { anchor_pos: sample_now, anchor_epoch: now, ..learned }
        } else {
            learned
        };
        TrackerState { sample_epoch: s.at_epoch_ms as int, last_sample: Some(s), ..anchored }
    }

    /// The full state transition of one observation.
    pub open spec fn observe(
        self,
        track: Seq<char>,
        playing: bool,
        now: int,
        sample: Option<PositionSample>,
        duration: Option<i64>,
    ) -> TrackerState {
        let t1 = self.note_track(track, playing, now, sample);
        match sample {
            Some(s) => if t1.sample_usable(s, duration) {
                t1.reconcile(s, now)
            } else {
                t1
            },
            None => t1,
        }
    }

    /// The reported position: the extrapolation at `now`, clamped to `[0, duration]`
    /// when the duration is known and positive, else to at least zero.
    pub open spec fn reported_position(self, now: int, duration: Option<i64>) -> int {
        let p = self.position_at(now);
        match duration {
            Some(d) if d > 0 => if p < 0 {
                0
            } else if p > d {
                d as int
            } else {
                p
            },
            _ => if p < 0 {
                0
            } else {
                p
            },
        }
    }
}


proof fn lemma_elapsed_bounds(t: TrackerState, from: int, to: int)
    requires
        t.bounded(),
        -2 * TIME_LIMIT <= from <= 2 * TIME_LIMIT,
        -2 * TIME_LIMIT <= to <= 2 * TIME_LIMIT,
    ensures
        0 <= t.elapsed(from, to) <= 2 * (to - from) + 1 || t.elapsed(from, to) == 0,
        0 <= t.elapsed(from, to) <= 9 * TIME_LIMIT,
{
    if t.playing && to > from {
        let dt = to - from;
        let n = t.rate_num;
        let d = t.rate_den;
        assert(0 <= n <= 2 * d) by {
            if !(n == 0 && d == 1) {
                assert(10 * n <= 11 * d);
            }
        }
        assert(0 <= (2 * dt * n + d) / (2 * d) <= 2 * dt + 1) by (nonlinear_arith)
            requires
                0 <= n <= 2 * d,
                d > 0,
                dt > 0,
        {
            assert(2 * dt * n + d <= 2 * d * (2 * dt + 1));
        }
    }
}

impl ProgressTracker {
    /// A tracker that has seen no track yet (rate zero until a track starts).
    pub fn new() -> (r: Self)
        ensures
            r@.track.len() == 0,
            !r@.playing,
            r@.anchor_pos == 0,
            r@.anchor_epoch == 0,
            r@.track_start == 0,
            r@.sample_epoch == 0,
            r@.last_sample is None,
            r@.rate_num == 0,
            r@.rate_den == 1,
            r@.wf(),
            r@ == fresh_tracker(),
    {
        let track = String::new();
        assert(track@ =~= Seq::<char>::empty());
        ProgressTracker {
            track,
            playing: false,
            anchor_pos_ms: 0,
            anchor_epoch_ms: 0,
            track_start_ms: 0,
            sample_epoch_ms: 0,
            last_sample: None,
            rate: ClockRate { num: 0, den: 1 },
        }
    }

    /// How far the player clock advanced from `from_ms` to `to_ms` (nothing while
    /// paused).
    #[verifier::spinoff_prover]
    fn elapsed_since(&self, from_ms: i64, to_ms: i64) -> (r: i64)
        requires
            self@.bounded(),
            in_time_range(from_ms as int),
            in_time_range(to_ms as int),
        ensures
            r == self@.elapsed(from_ms as int, to_ms as int),
            0 <= r <= 9 * TIME_LIMIT,
    {
        proof {
            lemma_elapsed_bounds(self@, from_ms as int, to_ms as int);
        }
        if !self.playing || to_ms <= from_ms {
            return 0;
        }
        let dt = (to_ms - from_ms) as i128;
        let num = self.rate.num as i128;
        let den = self.rate.den as i128;
        proof {
            assert(0 <= num <= 2 * den) by {
                if !(num == 0 && den == 1) {
                    assert(10 * num <= 11 * den);
                }
            }
            assert(0 <= 2 * dt * num <= 2 * (2 * TIME_LIMIT) * (2 * (2 * TIME_LIMIT))) by (nonlinear_arith)
                requires
                    0 <= num <= 2 * den,
                    den <= 2 * TIME_LIMIT,
                    0 < dt <= 2 * TIME_LIMIT,
            ;
        }
        let q = (2 * dt * num + den) / (2 * den);
        q as i64
    }

    /// The extrapolated position at `at_ms`.
    fn position_at(&self, at_ms: i64) -> (r: i64)
        requires
            self@.bounded(),
            abs(self@.anchor_pos) <= ANCHOR_LIMIT + ANCHOR_STEP,
            in_time_range(at_ms as int),
        ensures
            r == self@.position_at(at_ms as int),
    {
        self.anchor_pos_ms + self.elapsed_since(self.anchor_epoch_ms, at_ms)
    }
}


impl ProgressTracker {
    /// Measures the player clock between the last sample and `sample` (same track, both
    /// while playing) and adopts the ratio when it is plausible.
    fn learn_rate(&mut self, sample: PositionSample)
        requires
            old(self)@.bounded(),
            sample_ok(sample),
        ensures
            final(self)@ == old(self)@.learn_rate(sample),
    {
        let prev = match self.last_sample {
            Some(p) => p,
            None => {
                return;
            },
        };
        let d_pos = sample.position_ms - prev.position_ms;
        let d_at = sample.at_epoch_ms - prev.at_epoch_ms;
        if d_at <= 0 || !self.playing {
            return;
        }
        if 9 * (d_at as i128) <= 10 * (d_pos as i128) && 10 * (d_pos as i128) <= 11 * (d_at as i128) {
            self.rate = ClockRate { num: d_pos, den: d_at };
        }
    }

    /// Observes the current track (`track` identifies it), play state, wall clock
    /// `now_ms`, an optional exact sample and the track duration when known. Returns the
    /// position, the anchor time (`now_ms`) and the rate to extrapolate with (zero while
    /// paused).
    #[verifier::spinoff_prover]
    #[verifier::rlimit(40)]
    pub fn observe(
        &mut self,
        track: &str,
        playing: bool,
        now_ms: i64,
        sample: Option<PositionSample>,
        duration_ms: Option<i64>,
    ) -> (r: (i64, i64, ClockRate))
        requires
            old(self)@.wf(),
            in_time_range(now_ms as int),
            sample matches Some(s) ==> sample_ok(s),
        ensures
            final(self)@ == old(self)@.observe(track@, playing, now_ms as int, sample, duration_ms),
            final(self)@.bounded(),
            abs(final(self)@.anchor_pos) <= abs(old(self)@.anchor_pos) + ANCHOR_STEP,
            r.0 == final(self)@.reported_position(now_ms as int, duration_ms),
            r.1 == now_ms,
            r.2 == (if playing {
                ClockRate { num: final(self).rate.num, den: final(self).rate.den }
            } else {
                ClockRate { num: 0, den: 1 }
            }),
    {
        let ghost s0 = self@;
        if !same_text(track, self.track.as_str()) {
            let first_sight = self.track.as_str().is_empty();
            self.track = track.to_owned();
            self.playing = playing;
            self.anchor_pos_ms = 0;
            self.anchor_epoch_ms = now_ms;
            self.track_start_ms = now_ms;
            self.sample_epoch_ms = 0;
            self.last_sample = None;
            self.rate = ClockRate { num: 1, den: 1 };
            if first_sight {
                if let Some(s) = sample {
                    self.anchor_pos_ms = s.position_ms;
                    self.anchor_epoch_ms = s.at_epoch_ms;
                    self.track_start_ms = s.at_epoch_ms - s.position_ms;
                    self.sample_epoch_ms = s.at_epoch_ms;
                    self.last_sample = Some(s);
                }
            }
        } else if playing != self.playing {
            proof {
                lemma_elapsed_bounds(self@, self@.anchor_epoch, now_ms as int);
            }
            self.anchor_pos_ms = self.position_at(now_ms);
            self.anchor_epoch_ms = now_ms;
            self.playing = playing;
        }
        let ghost s1 = self@;
        assert(s1 == s0.note_track(track@, playing, now_ms as int, sample));
        assert(abs(s1.anchor_pos) <= abs(s0.anchor_pos) + 9 * TIME_LIMIT);
        if let Some(s) = sample {
            let stale = (s.at_epoch_ms as i128) + (SAMPLE_STALE_MS as i128) < (self.track_start_ms as i128);
            let plausible = match duration_ms {
                Some(d) => s.position_ms <= d,
                None => true,
            };
            if s.at_epoch_ms != self.sample_epoch_ms && !stale && plausible {
                self.learn_rate(s);
                let ghost s2 = self@;
                proof {
                    lemma_elapsed_bounds(s2, s.at_epoch_ms as int, now_ms as int);
                    lemma_elapsed_bounds(s2, s2.anchor_epoch, now_ms as int);
                }
                let sample_now = s.position_ms + self.elapsed_since(s.at_epoch_ms, now_ms);
                let here = self.position_at(now_ms);
                let diff = (sample_now as i128) - (here as i128);
                if diff > SAMPLE_TOLERANCE_MS as i128 || diff < -(SAMPLE_TOLERANCE_MS as i128) {
                    self.anchor_pos_ms = sample_now;
                    self.anchor_epoch_ms = now_ms;
                }
                self.sample_epoch_ms = s.at_epoch_ms;
                self.last_sample = Some(s);
            }
        }
        proof {
            lemma_elapsed_bounds(self@, self@.anchor_epoch, now_ms as int);
        }
        let p = self.position_at(now_ms);
        let position = match duration_ms {
            Some(d) => {
                if d > 0 {
                    if p < 0 {
                        0
                    } else if p > d {
                        d
                    } else {
                        p
                    }
                } else if p < 0 {
                    0
                } else {
                    p
                }
            },
            None => if p < 0 {
                0
            } else {
                p
            },
        };
        let rate = if self.playing {
            self.rate
        } else {
            ClockRate { num: 0, den: 1 }
        };
        (position, now_ms, rate)
    }
}


/// The reported position never goes below zero, and never beyond a known positive
/// duration.
pub proof fn law_position_within_track(
    t: TrackerState,
    track: Seq<char>,
    playing: bool,
    now: int,
    sample: Option<PositionSample>,
    duration: Option<i64>,
)
    ensures
        ({
            let p = t.observe(track, playing, now, sample, duration).reported_position(now, duration);
            &&& 0 <= p
            &&& (duration matches Some(d) ==> (d > 0 ==> p <= d))
        }),
{
}

/// A track change restarts the count at zero: for a track other than the current
/// one, with no sample, the position is 0 and the rate is back to the wall clock.
pub proof fn law_track_change_restarts(
    t: TrackerState,
    track: Seq<char>,
    playing: bool,
    now: int,
    duration: Option<i64>,
)
    requires
        track != t.track,
    ensures
        t.observe(track, playing, now, None, duration).reported_position(now, duration) == 0,
        t.observe(track, playing, now, None, duration).rate_num == 1,
        t.observe(track, playing, now, None, duration).rate_den == 1,
{
}

/// While paused on the same track the position is frozen: with no sample the state
/// is unchanged, so the position reported is the same whatever the clock says.
pub proof fn law_pause_freezes(
    t: TrackerState,
    now1: int,
    now2: int,
    duration: Option<i64>,
)
    requires
        !t.playing,
    ensures
        t.observe(t.track, false, now1, None, duration) == t,
        t.observe(t.track, false, now1, None, duration).reported_position(now1, duration)
            == t.observe(t.track, false, now2, None, duration).reported_position(now2, duration),
{
}

/// Pausing keeps the position reached, and resuming continues from it: after a pause
/// at `now` the anchor is the position extrapolated up to `now`, and a resume at any
/// later time starts from that same anchor.
pub proof fn law_pause_then_resume_continues(t: TrackerState, pause_at: int, resume_at: int)
    requires
        t.playing,
    ensures
        ({
            let paused = t.observe(t.track, false, pause_at, None, None);
            let resumed = paused.observe(t.track, true, resume_at, None, None);
            &&& paused.anchor_pos == t.position_at(pause_at)
            &&& resumed.anchor_pos == t.position_at(pause_at)
            &&& resumed.anchor_epoch == resume_at
            &&& resumed.playing
        }),
{
}

/// One sample corrects at most once: a sample with the time already reconciled is
/// ignored, so observing it again equals observing without a sample.
pub proof fn law_sample_reconciled_once(
    t: TrackerState,
    playing: bool,
    now: int,
    s: PositionSample,
    duration: Option<i64>,
)
    requires
        s.at_epoch_ms == t.sample_epoch,
        playing == t.playing,
    ensures
        t.observe(t.track, playing, now, Some(s), duration) == t.observe(
            t.track,
            playing,
            now,
            None,
            duration,
        ),
{
}

/// A sample of the previous track (taken more than the stale margin before the
/// current track started) is ignored.
pub proof fn law_stale_sample_ignored(
    t: TrackerState,
    playing: bool,
    now: int,
    s: PositionSample,
    duration: Option<i64>,
)
    requires
        s.at_epoch_ms + SAMPLE_STALE_MS < t.track_start,
        playing == t.playing,
    ensures
        t.observe(t.track, playing, now, Some(s), duration) == t.observe(
            t.track,
            playing,
            now,
            None,
            duration,
        ),
{
}

/// A sample beyond the known duration is dirty data and is ignored.
pub proof fn law_implausible_sample_ignored(
    t: TrackerState,
    playing: bool,
    now: int,
    s: PositionSample,
    d: i64,
)
    requires
        s.position_ms > d,
        playing == t.playing,
    ensures
        t.observe(t.track, playing, now, Some(s), Some(d)) == t.observe(
            t.track,
            playing,
            now,
            None,
            Some(d),
        ),
{
}

/// A usable sample that disagrees with the extrapolation by more than the tolerance
/// puts the position where the sample says (carried forward to `now`).
pub proof fn law_far_sample_wins(
    t: TrackerState,
    now: int,
    s: PositionSample,
    duration: Option<i64>,
)
    requires
        t.sample_usable(s, duration),
        ({
            let l = t.learn_rate(s);
            abs(s.position_ms + l.elapsed(s.at_epoch_ms as int, now) - l.position_at(now))
                > SAMPLE_TOLERANCE_MS
        }),
    ensures
        t.observe(t.track, t.playing, now, Some(s), duration).position_at(now) == s.position_ms
            + t.learn_rate(s).elapsed(s.at_epoch_ms as int, now),
{
}

/// A usable sample within the tolerance of the extrapolation leaves the position
/// where the tracker's own count had it (the rate may still be learned).
pub proof fn law_near_sample_keeps_position(
    t: TrackerState,
    now: int,
    s: PositionSample,
    duration: Option<i64>,
)
    requires
        t.sample_usable(s, duration),
        ({
            let l = t.learn_rate(s);
            abs(s.position_ms + l.elapsed(s.at_epoch_ms as int, now) - l.position_at(now))
                <= SAMPLE_TOLERANCE_MS
        }),
    ensures
        t.observe(t.track, t.playing, now, Some(s), duration).anchor_pos == t.anchor_pos,
        t.observe(t.track, t.playing, now, Some(s), duration).anchor_epoch == t.anchor_epoch,
{
}

/// The learned rate stays within the plausible band (or is one of the starting
/// values, 0/1 before any track and 1/1 for a new track).
pub proof fn law_rate_plausible(
    t: TrackerState,
    track: Seq<char>,
    playing: bool,
    now: int,
    sample: Option<PositionSample>,
    duration: Option<i64>,
)
    requires
        t.rate_num == 0 && t.rate_den == 1 || t.rate_num == 1 && t.rate_den == 1 || plausible_rate(
            t.rate_num,
            t.rate_den,
        ),
    ensures
        ({
            let n = t.observe(track, playing, now, sample, duration);
            n.rate_num == 0 && n.rate_den == 1 || n.rate_num == 1 && n.rate_den == 1
                || plausible_rate(n.rate_num, n.rate_den)
        }),
{
}

/// With the duration unknown, a new sample (its time not reconciled yet) that is not
/// older than the track is used: it is marked as reconciled, and when it, carried
/// forward to now, differs from the extrapolation by more than the tolerance, the
/// position becomes that carried sample; otherwise the anchor stays.
pub proof fn law_sample_used_without_duration(t: TrackerState, now: int, s: PositionSample)
    requires
        s.at_epoch_ms != t.sample_epoch,
        s.at_epoch_ms + SAMPLE_STALE_MS >= t.track_start,
    ensures
        ({
            let n = t.observe(t.track, t.playing, now, Some(s), None);
            let l = t.learn_rate(s);
            let carried = s.position_ms + l.elapsed(s.at_epoch_ms as int, now);
            &&& n.sample_epoch == s.at_epoch_ms
            &&& n.last_sample == Some(s)
            &&& abs(carried - l.position_at(now)) > SAMPLE_TOLERANCE_MS ==> n.position_at(now) == carried
            &&& abs(carried - l.position_at(now)) <= SAMPLE_TOLERANCE_MS ==> n.anchor_pos == t.anchor_pos
        }),
{
}

/// The tracker's rate over any run of observations of named tracks: zero over one only
/// before the first track, afterwards within the plausible band.
pub open spec fn rate_in_band(t: TrackerState) -> bool {
    (t.track.len() == 0 && t.rate_num == 0 && t.rate_den == 1) || plausible_rate(t.rate_num, t.rate_den)
}

/// A fresh tracker's rate is in band.
pub proof fn law_fresh_tracker_rate_in_band()
    ensures
        rate_in_band(fresh_tracker()),
{
}

/// Observing a named track from a state whose rate is in band (a fresh tracker, or one
/// reached from it by observations of named tracks) takes that track and play state,
/// keeps the rate in band and within [0.9, 1.1], and reports a position that is not
/// negative and, with a known positive duration, not past it.
pub proof fn law_observe_named_track(
    t: TrackerState,
    track: Seq<char>,
    playing: bool,
    now: int,
    sample: Option<PositionSample>,
    duration: Option<i64>,
)
    requires
        rate_in_band(t),
        track.len() > 0,
    ensures
        ({
            let n = t.observe(track, playing, now, sample, duration);
            let p = n.reported_position(now, duration);
            &&& n.track == track
            &&& n.playing == playing
            &&& rate_in_band(n)
            &&& plausible_rate(n.rate_num, n.rate_den)
            &&& 0 <= p
            &&& (duration matches Some(d) ==> (d > 0 ==> p <= d))
        }),
{
}

} // verus!

verus! {

/// The state of a tracker that has seen no track yet.
pub open spec fn fresh_tracker() -> TrackerState {
    TrackerState {
        track: Seq::empty(),
        playing: false,
        anchor_pos: 0,
        anchor_epoch: 0,
        track_start: 0,
        sample_epoch: 0,
        last_sample: None,
        rate_num: 0,
        rate_den: 1,
    }
}

impl ProgressTracker {
    /// Whether the anchor position is still within [`ANCHOR_LIMIT`] (given the other
    /// bounds, the tracker can then observe).
    pub fn anchor_in_limit(&self) -> (r: bool)
        ensures
            r == (abs(self@.anchor_pos) <= ANCHOR_LIMIT),
    {
        -ANCHOR_LIMIT <= self.anchor_pos_ms && self.anchor_pos_ms <= ANCHOR_LIMIT
    }
}

/// The index of the last `.` in `s`, or -1 when it has none.
pub open spec fn last_dot(s: Seq<char>) -> int
    decreases s.len(),
{
    if s.len() == 0 {
        -1
    } else if s.last() == '.' {
        s.len() - 1
    } else {
        last_dot(s.drop_last())
    }
}

proof fn lemma_last_dot_range(s: Seq<char>)
    ensures
        -1 <= last_dot(s) < s.len(),
        last_dot(s) >= 0 ==> s[last_dot(s)] == '.',
    decreases s.len(),
{
    if s.len() > 0 && s.last() != '.' {
        lemma_last_dot_range(s.drop_last());
    }
}

/// The name shown for a track without a title: `SMTC: ` and the source id's last
/// `.`-separated part, or for an id without `.` its last 30 characters.
pub open spec fn spec_fallback_track(source_app_id: Seq<char>) -> Seq<char> {
    let d = last_dot(source_app_id);
    let n = source_app_id.len() as int;
    let tail = if d >= 0 {
        source_app_id.subrange(d + 1, n)
    } else if n > 30 {
        source_app_id.subrange(n - 30, n)
    } else {
        source_app_id
    };
    "SMTC: "@ + tail
}

/// The track name to show when the source gives no title.
pub fn fallback_track(source_app_id: &str) -> (r: String)
    ensures
        r@ == spec_fallback_track(source_app_id@),
{
    let c = chars_of(source_app_id);
    let n = c.len();
    let mut i: usize = n;
    proof {
        assert(c@.take(n as int) =~= c@);
    }
    while i > 0 && c[i - 1] != '.'
        invariant
            i <= n == c.len(),
            c@ == source_app_id@,
            last_dot(c@) == last_dot(c@.take(i as int)),
        decreases i,
    {
        proof {
            assert(c@.take(i as int).drop_last() =~= c@.take(i - 1));
        }
        i -= 1;
    }
    proof {
        lemma_last_dot_range(c@);
        if i == 0 {
            assert(c@.take(0) =~= Seq::<char>::empty());
        } else {
            assert(c@.take(i as int).last() == c@[i - 1]);
        }
    }
    let tail = if i > 0 {
        slice_chars(&c, i, n)
    } else if n > 30 {
        slice_chars(&c, n - 30, n)
    } else {
        c
    };
    let out = concat_chars(&chars_of("SMTC: "), &tail);
    string_of(&out)
}

} // verus!

verus! {

/// What the island shows of the music playing.
#[derive(Debug, Clone, PartialEq, Eq)]
pub struct MusicState {
    /// Name of the source the state comes from.
    pub provider: String,
    pub is_playing: bool,
    pub track: Option<String>,
    pub artist: Option<String>,
    pub album: Option<String>,
    pub source_app_id: Option<String>,
    pub song_id: Option<String>,
    /// `position_ms` was the position at `anchor_epoch_ms`; it advances at `rate`.
    pub position_ms: i64,
    pub anchor_epoch_ms: i64,
    pub rate: ClockRate,
    pub duration_ms: Option<i64>,
    pub seek_supported: bool,
    pub artwork_url: Option<String>,
    /// Hash of the player's own cover bitmap, fetched separately.
    pub artwork_hash: Option<String>,
    /// Key of the lyrics cached for the track, fetched separately.
    pub lyrics_id: Option<String>,
}

/// The state shown when nothing plays.
pub open spec fn idle_state(s: MusicState) -> bool {
    &&& s.provider@.len() == 0
    &&& !s.is_playing
    &&& s.track is None && s.artist is None && s.album is None
    &&& s.source_app_id is None && s.song_id is None
    &&& s.position_ms == 0 && s.anchor_epoch_ms == 0
    &&& s.rate == (ClockRate { num: 0, den: 1 })
    &&& s.duration_ms is None
    &&& !s.seek_supported
    &&& s.artwork_url is None && s.artwork_hash is None && s.lyrics_id is None
}

impl Default for MusicState {
    fn default() -> (r: Self)
        ensures
            idle_state(r),
    {
        MusicState {
            provider: String::new(),
            is_playing: false,
            track: None,
            artist: None,
            album: None,
            source_app_id: None,
            song_id: None,
            position_ms: 0,
            anchor_epoch_ms: 0,
            rate: ClockRate { num: 0, den: 1 },
            duration_ms: None,
            seek_supported: false,
            artwork_url: None,
            artwork_hash: None,
            lyrics_id: None,
        }
    }
}

/// A cover image: its content hash and a `data:` URL.
#[derive(Debug, Clone, PartialEq, Eq)]
pub struct MusicArtwork {
    pub hash: String,
    pub data_url: String,
}

/// What a source can do; controls are routed by capability, never by source name.
#[derive(Debug, Clone, Copy, PartialEq, Eq)]
pub struct Capabilities {
    /// The source hands out the player's cover bitmap.
    pub artwork_bitmap: bool,
    /// The source can skip to the next or previous track.
    pub skip: bool,
    /// Controls that the active source did not take fall back to this source.
    pub fallback: bool,
}

/// A playback command.
#[derive(Debug, Clone, Copy, PartialEq, Eq)]
pub enum Control {
    Play,
    Pause,
    Next,
    Prev,
    Seek(i64),
}

/// The music service's state between polls: the caches, the progress tracker, and
/// the index (in priority order) of the source that controls go to.
pub struct MusicService {
    pub resolver: Resolver,
    pub progress: ProgressTracker,
    pub active: usize,
}

impl MusicService {
    /// The service's consistency: the tracker's numbers stay within their bounds.
    pub open spec fn wf(&self) -> bool {
        self.progress@.bounded()
    }

    /// A service that has seen nothing yet; controls go to the source at `fallback`.
    pub fn new(fallback: usize) -> (r: Self)
        ensures
            r.wf(),
            r.progress@ == fresh_tracker(),
            r.active == fallback,
            r.resolver.meta.key@.len() == 0 && r.resolver.meta.value is None,
            r.resolver.lyrics.key@.len() == 0 && r.resolver.lyrics.value is None,
            r.resolver.artwork.key@.len() == 0 && r.resolver.artwork.value is None,
    {
        MusicService { resolver: Resolver::new(), progress: ProgressTracker::new(), active: fallback }
    }
}

/// Whether a source's snapshot may be shown: KuGou's sessions count as absent while
/// KuGou support is switched off.
pub open spec fn admitted(s: ProviderView, kugou_enabled: bool) -> bool {
    kugou_enabled || !spec_is_source(s.source_app_id)
}

/// The first source at or after `from` (in priority order) with an admitted snapshot.
pub open spec fn first_admitted(snaps: Seq<Option<ProviderState>>, kugou_enabled: bool, from: int) -> Option<
    int,
>
    decreases snaps.len() - from,
{
    if from < 0 || from >= snaps.len() {
        None
    } else if (snaps[from] matches Some(s) && admitted(s@, kugou_enabled)) {
        Some(from)
    } else {
        first_admitted(snaps, kugou_enabled, from + 1)
    }
}

/// The source in effect: the first in priority order whose snapshot exists and is
/// admitted.
pub fn select_source(snapshots: &Vec<Option<ProviderState>>, kugou_enabled: bool) -> (r: Option<usize>)
    ensures
        r matches Some(i) ==> first_admitted(snapshots@, kugou_enabled, 0) == Some(i as int) && i
            < snapshots.len(),
        r is None ==> first_admitted(snapshots@, kugou_enabled, 0) is None,
{
    let mut i: usize = 0;
    while i < snapshots.len()
        invariant
            i <= snapshots.len(),
            first_admitted(snapshots@, kugou_enabled, 0) == first_admitted(
                snapshots@,
                kugou_enabled,
                i as int,
            ),
        decreases snapshots.len() - i,
    {
        match &snapshots[i] {
            Some(s) => {
                if kugou_enabled || !is_source(s.source_app_id.as_str()) {
                    return Some(i);
                }
            },
            None => {},
        }
        i += 1;
    }
    None
}

/// A source without a timeline whose progress is tracked here: KuGou's session gives
/// no timeline (no duration), so the position is counted (with the player's own samples);
/// other sources without a timeline keep position zero rather than an invented one.
pub open spec fn spec_tracks_progress(s: ProviderView) -> bool {
    s.duration_ms is None && spec_is_source(s.source_app_id)
}

/// Whether the poll tracks this source's progress (and wants a position sample).
pub fn tracks_progress(src: &ProviderState) -> (r: bool)
    ensures
        r == spec_tracks_progress(src@),
{
    src.duration_ms.is_none() && is_source(src.source_app_id.as_str())
}

/// The track name shown: the completed title, or the fallback name without one.
pub open spec fn shown_track(r: ResolvedView, s: ProviderView) -> Seq<char> {
    if r.title.len() == 0 {
        spec_fallback_track(s.source_app_id)
    } else {
        r.title
    }
}

fn some_text(s: &String) -> (r: Option<String>)
    ensures
        opt_view(r) == Some(s@),
{
    Some(s.clone())
}

/// One poll of the selected source (`None` when no source has an admitted snapshot).
///
/// Without a source the caches forget the track and the idle state is shown. With one,
/// it becomes the control target; the resolver completes its fields (and says which
/// fetches to start); the track name falls back to the source id without a title; and
/// for a KuGou session without timeline the position comes from the tracker, keyed by
/// the shown track, artist and source, observed at `now_ms` with the player's `sample`;
/// other sources keep their own timeline.
pub fn poll_state(
    svc: &mut MusicService,
    selected: Option<(usize, ProviderState)>,
    provider_name: &str,
    caps: Capabilities,
    lyrics_supported: bool,
    now_ms: i64,
    sample: Option<PositionSample>,
) -> (r: (MusicState, Fetches))
    requires
        old(svc).wf(),
        in_time_range(now_ms as int),
        sample matches Some(x) ==> sample_ok(x),
        selected matches Some((_, src)) && spec_tracks_progress(src@) ==> abs(old(svc).progress@.anchor_pos)
            <= ANCHOR_LIMIT,
    ensures
        final(svc).wf(),
        selected is None ==> ({
            &&& idle_state(r.0)
            &&& r.1.meta is None && r.1.lyrics is None && r.1.artwork is None
            &&& final(svc).resolver.meta.key@.len() == 0
            &&& final(svc).resolver.lyrics.key@.len() == 0
            &&& final(svc).resolver.artwork.key@.len() == 0
            &&& final(svc).resolver.meta.value == old(svc).resolver.meta.value
            &&& final(svc).resolver.lyrics.value == old(svc).resolver.lyrics.value
            &&& final(svc).resolver.artwork.value == old(svc).resolver.artwork.value
            &&& final(svc).resolver.meta.fetching == old(svc).resolver.meta.fetching
            &&& final(svc).resolver.lyrics.fetching == old(svc).resolver.lyrics.fetching
            &&& final(svc).resolver.artwork.fetching == old(svc).resolver.artwork.fetching
            &&& final(svc).progress@ == old(svc).progress@
            &&& final(svc).active == old(svc).active
        }),
        selected matches Some((i, src)) ==> ({
            let s = src@;
            let rv = resolved_of(old(svc).resolver, s, caps.artwork_bitmap);
            let track = shown_track(rv, s);
            let st = r.0;
            &&& final(svc).active == i
            &&& resolver_after(old(svc).resolver, final(svc).resolver, s)
            &&& fetches_of(old(svc).resolver, s, caps.artwork_bitmap, lyrics_supported, r.1)
            &&& st.provider@ == provider_name@
            &&& st.is_playing == s.is_playing
            &&& opt_view(st.track) == Some(track)
            &&& opt_view(st.artist) == (if rv.artist.len() > 0 {
                Some(rv.artist)
            } else {
                None
            })
            &&& opt_view(st.album) == rv.album
            &&& opt_view(st.source_app_id) == Some(s.source_app_id)
            &&& opt_view(st.song_id) == s.song_id
            &&& st.duration_ms == rv.duration_ms
            &&& st.seek_supported == s.seek_supported
            &&& opt_view(st.artwork_url) == rv.artwork_url
            &&& opt_view(st.artwork_hash) == rv.artwork_hash
            &&& opt_view(st.lyrics_id) == rv.lyrics_id
            &&& if spec_tracks_progress(s) {
                let t = old(svc).progress@.observe(
                    track_key(track, rv.artist, s.source_app_id),
                    s.is_playing,
                    now_ms as int,
                    sample,
                    rv.duration_ms,
                );
                &&& final(svc).progress@ == t
                &&& st.position_ms == t.reported_position(now_ms as int, rv.duration_ms)
                &&& st.anchor_epoch_ms == now_ms
                &&& st.rate == (if s.is_playing {
                    ClockRate { num: t.rate_num as i64, den: t.rate_den as i64 }
                } else {
                    ClockRate { num: 0, den: 1 }
                })
            } else {
                &&& final(svc).progress@ == old(svc).progress@
                &&& st.position_ms == s.position_ms
                &&& st.anchor_epoch_ms == s.anchor_epoch_ms
                &&& st.rate == s.rate
            }
        }),
{
    let (index, src) = match selected {
        Some(p) => p,
        None => {
            svc.resolver.reset();
            return (
                MusicState::default(),
                Fetches { meta: None, lyrics: None, artwork: None },
            );
        },
    };
    svc.active = index;
    let (res, fetches) = svc.resolver.observe(&src, caps.artwork_bitmap, lyrics_supported);
    let track = if res.title.as_str().is_empty() {
        fallback_track(src.source_app_id.as_str())
    } else {
        res.title.clone()
    };
    let (position_ms, anchor_epoch_ms, rate) = if tracks_progress(&src) {
        let key = track_key_text(track.as_str(), res.artist.as_str(), src.source_app_id.as_str());
        svc.progress.observe(key.as_str(), src.is_playing, now_ms, sample, res.duration_ms)
    } else {
        (src.position_ms, src.anchor_epoch_ms, src.rate)
    };
    let artist = if res.artist.as_str().is_empty() {
        None
    } else {
        some_text(&res.artist)
    };
    let state = MusicState {
        provider: provider_name.to_owned(),
        is_playing: src.is_playing,
        track: Some(track),
        artist,
        album: res.album,
        source_app_id: some_text(&src.source_app_id),
        song_id: clone_opt(&src.song_id),
        position_ms,
        anchor_epoch_ms,
        rate,
        duration_ms: res.duration_ms,
        seek_supported: src.seek_supported,
        artwork_url: res.artwork_url,
        artwork_hash: res.artwork_hash,
        lyrics_id: res.lyrics_id,
    };
    (state, fetches)
}

} // verus!

verus! {

/// The KuGou status the settings page shows.
///
/// Before the service runs, the plain status from the process and installation alone;
/// with the DevTools session connected, connected; with the enhancement switched on
/// (`enhance` is its state then), the next step it needs: no `libcef.dll` found reads as
/// not running while a KuGou process runs and as not detected otherwise, an unknown or
/// unpatched DLL needs the patch, and a patched one needs KuGou started, restarted, or
/// is connecting; otherwise the plain status from the current media session.
pub open spec fn spec_kugou_status(
    service_up: bool,
    cdp_connected: bool,
    enhance: Option<EnhanceStatus>,
    session_app_id: Option<Seq<char>>,
    running: bool,
    installed: bool,
) -> KugouStatus {
    let plain = |session: Option<Seq<char>>|
        if session matches Some(id) && spec_is_source(id) {
            KugouStatus::Connected
        } else if running {
            KugouStatus::NeedsSystemControls
        } else if installed {
            KugouStatus::NotRunning
        } else {
            KugouStatus::NotDetected
        };
    if !service_up {
        plain(None)
    } else if cdp_connected {
        KugouStatus::Connected
    } else {
        match enhance {
            Some(st) => match st.patch {
                PatchState::Missing => if st.kugou_running {
                    KugouStatus::NotRunning
                } else {
                    KugouStatus::NotDetected
                },
                PatchState::Unsupported | PatchState::Pending => KugouStatus::NeedsPatch,
                PatchState::Patched => if !st.kugou_running {
                    KugouStatus::NotRunning
                } else if st.needs_restart {
                    KugouStatus::NeedsRestart
                } else {
                    KugouStatus::Connecting
                },
            },
            None => plain(session_app_id),
        }
    }
}

/// The KuGou status: whether the service runs, whether its DevTools session is
/// connected, the enhancement's state when the enhancement is switched on, the current
/// media session's source id, and whether a KuGou process runs and an installation was
/// found.
pub fn kugou_status(
    service_up: bool,
    cdp_connected: bool,
    enhance: Option<EnhanceStatus>,
    session_app_id: Option<&str>,
    running: bool,
    installed: bool,
) -> (r: KugouStatus)
    ensures
        r == spec_kugou_status(
            service_up,
            cdp_connected,
            enhance,
            match session_app_id {
                Some(s) => Some(s@),
                None => None,
            },
            running,
            installed,
        ),
{
    if !service_up {
        return kugou_plain_status(None, running, installed);
    }
    if cdp_connected {
        return KugouStatus::Connected;
    }
    match enhance {
        Some(st) => match st.patch {
            PatchState::Missing => {
                if st.kugou_running {
                    KugouStatus::NotRunning
                } else {
                    KugouStatus::NotDetected
                }
            },
            PatchState::Unsupported | PatchState::Pending => KugouStatus::NeedsPatch,
            PatchState::Patched => {
                if !st.kugou_running {
                    KugouStatus::NotRunning
                } else if st.needs_restart {
                    KugouStatus::NeedsRestart
                } else {
                    KugouStatus::Connecting
                }
            },
        },
        None => kugou_plain_status(session_app_id, running, installed),
    }
}

/// The enhancement's detailed state (the settings page offers repair or revert by it).
pub fn kugou_enhance_status(patch: PatchState, cdp: bool, kugou_running: bool) -> (r: EnhanceStatus)
    ensures
        r.patch == patch,
        r.cdp == cdp,
        r.kugou_running == kugou_running,
        r.needs_restart == (kugou_running && !cdp && patch == PatchState::Patched),
{
    enhance_status(patch, cdp, kugou_running)
}

/// The current cover when its hash is `hash` (otherwise the track has changed).
pub fn artwork(svc: &MusicService, hash: &str) -> (r: Option<MusicArtwork>)
    ensures
        r matches Some(a) ==> (svc.resolver.artwork.value matches Some((_, c)) && c.hash@ == hash@
            && a.hash@ == c.hash@ && a.data_url@ == c.data_url@),
        r is None ==> !(svc.resolver.artwork.value matches Some((_, c)) && c.hash@ == hash@),
{
    match svc.resolver.artwork(hash) {
        Some((h, d)) => Some(MusicArtwork { hash: h, data_url: d }),
        None => None,
    }
}

/// The lyrics cached for `id` (none when the track has changed).
pub fn lyrics(svc: &MusicService, id: &str) -> (r: Option<LyricsData>)
    ensures
        r matches Some(d) ==> (slot_get(svc.resolver.lyrics.value, id@) matches Some(c) && d@ == c@),
        r is None ==> slot_get(svc.resolver.lyrics.value, id@) is None,
{
    svc.resolver.lyrics(id)
}

/// The seek command for a requested position (a negative one seeks to the start).
pub fn seek(position_ms: i64) -> (r: Control)
    ensures
        r == Control::Seek(if position_ms < 0 {
            0
        } else {
            position_ms
        }),
{
    Control::Seek(if position_ms < 0 {
        0
    } else {
        position_ms
    })
}

/// Whether a command needs the skip capability (next and previous track).
pub open spec fn spec_needs_skip(c: Control) -> bool {
    c == Control::Next || c == Control::Prev
}

/// Whether a command needs the skip capability.
pub fn needs_skip(c: Control) -> (r: bool)
    ensures
        r == spec_needs_skip(c),
{
    match c {
        Control::Next | Control::Prev => true,
        _ => false,
    }
}

/// Whether the active source is sent the command: unless it needs skipping and the
/// source cannot skip.
pub fn active_takes(c: Control, active: Capabilities) -> (r: bool)
    ensures
        r == (!spec_needs_skip(c) || active.skip),
{
    !needs_skip(c) || active.skip
}

/// The first source (in priority order) marked as fallback.
pub open spec fn first_fallback(caps: Seq<Capabilities>, from: int) -> Option<int>
    decreases caps.len() - from,
{
    if from < 0 || from >= caps.len() {
        None
    } else if caps[from].fallback {
        Some(from)
    } else {
        first_fallback(caps, from + 1)
    }
}

/// Where a command goes when the active source did not take it: the first fallback
/// source, unless that is the active source itself.
pub fn fallback_target(caps: &Vec<Capabilities>, active: usize) -> (r: Option<usize>)
    ensures
        r == (match first_fallback(caps@, 0) {
            Some(f) => if f == active {
                None
            } else {
                Some(f as usize)
            },
            None => None,
        }),
{
    let mut i: usize = 0;
    while i < caps.len()
        invariant
            i <= caps.len(),
            first_fallback(caps@, 0) == first_fallback(caps@, i as int),
        decreases caps.len() - i,
    {
        if caps[i].fallback {
            if i == active {
                return None;
            }
            return Some(i);
        }
        i += 1;
    }
    None
}

} // verus!

verus! {

/// What applying the settings switches on: the music poll (and the service with it),
/// KuGou support, the KuGou enhancement, the DevTools worker (which needs all three),
/// and the NetEase bridge deployment (which needs the poll, whose server it talks to).
#[derive(Debug, Clone, Copy, PartialEq, Eq, Structural)]
pub struct SyncPlan {
    pub poll: bool,
    pub kugou_enabled: bool,
    pub kugou_enhance_enabled: bool,
    pub cdp_enabled: bool,
    pub bridge_wanted: bool,
}

/// The switches the settings call for.
pub fn sync_plan(diagnostics: DiagnosticsToggles, music: MusicConfig) -> (r: SyncPlan)
    ensures
        r == (SyncPlan {
            poll: diagnostics.music_poll,
            kugou_enabled: music.kugou_support,
            kugou_enhance_enabled: music.kugou_enhance,
            cdp_enabled: diagnostics.music_poll && music.kugou_support && music.kugou_enhance,
            bridge_wanted: diagnostics.music_poll && music.netease_bridge,
        }),
{
    let poll = diagnostics.music_poll;
    SyncPlan {
        poll,
        kugou_enabled: music.kugou_support,
        kugou_enhance_enabled: music.kugou_enhance,
        cdp_enabled: poll && music.kugou_support && music.kugou_enhance,
        bridge_wanted: poll && music.netease_bridge,
    }
}

} // verus!

verus! {

/// The elevated helper's entry: what it works on, or its exit code when it cannot start
/// (see [`patch_helper_plan`]).
pub fn run_kugou_patch_helper(mode: &str, libcef: &str, control: &str) -> (r: Result<(HelperMode, String, String), i32>)
    ensures
        spec_unquote_path(control@).len() == 0 ==> r == Err::<(HelperMode, String, String), i32>(2),
        spec_unquote_path(control@).len() > 0 ==> (r matches Ok(p) && p.0 == spec_mode_from_arg(mode@)
            && p.1@ == spec_unquote_path(libcef@) && p.2@ == spec_unquote_path(control@)),
{
    patch_helper_plan(mode, libcef, control)
}

/// Starts repairing the KuGou enhancement (the KuGou switch turned on): the patching
/// deployment.
pub fn kugou_repair() -> (r: (DeployFlow, DeployAction))
    ensures
        deploy_inv(r.0),
        r.0.mode == HelperMode::Patch && r.0.stage == DeployStage::Start && r.1 is ProbeCdp,
        !r.0.was_running && !r.0.checked,
{
    ensure_applied()
}

/// Starts reverting the KuGou enhancement (the KuGou switch turned off): the restoring
/// deployment.
pub fn kugou_revert() -> (r: (DeployFlow, DeployAction))
    ensures
        deploy_inv(r.0),
        r.0.mode == HelperMode::Restore && r.0.stage == DeployStage::Locating && r.1 is Locate,
        !r.0.was_running && !r.0.checked,
{
    revert()
}

} // verus!

verus! {

/// Whether a wall-clock time is one the tracker can work with (within
/// [`TIME_LIMIT`] of the epoch).
pub fn time_in_range(t: i64) -> (r: bool)
    ensures
        r == in_time_range(t as int),
{
    -TIME_LIMIT <= t && t <= TIME_LIMIT
}

/// A position sample the tracker can use: one whose position and time are within
/// [`TIME_LIMIT`] (anything beyond comes from a corrupt file and is no sample).
pub fn sample_in_range(s: Option<PositionSample>) -> (r: Option<PositionSample>)
    ensures
        r == (match s {
            Some(x) => if sample_ok(x) {
                Some(x)
            } else {
                None
            },
            None => None,
        }),
{
    match s {
        Some(x) => {
            if time_in_range(x.position_ms) && time_in_range(x.at_epoch_ms) {
                Some(x)
            } else {
                None
            }
        },
        None => None,
    }
}

} // verus!

verus! {

/// With KuGou support switched off, a KuGou session is never the source in effect.
pub proof fn law_disabled_kugou_never_selected(snaps: Seq<Option<ProviderState>>, from: int)
    ensures
        first_admitted(snaps, false, from) matches Some(i) ==> (snaps[i] matches Some(s)
            && !spec_is_source(s@.source_app_id)),
    decreases snaps.len() - from,
{
    if 0 <= from < snaps.len() {
        law_disabled_kugou_never_selected(snaps, from + 1);
    }
}

/// The source in effect is the first admitted one: every source before it has no
/// snapshot or an excluded one.
pub proof fn law_selected_source_comes_first(snaps: Seq<Option<ProviderState>>, kugou_enabled: bool, from: int)
    requires
        0 <= from,
    ensures
        first_admitted(snaps, kugou_enabled, from) matches Some(i) ==> (from <= i < snaps.len() && (
        snaps[i] matches Some(s) && admitted(s@, kugou_enabled)) && forall|j: int|
            from <= j < i ==> !(#[trigger] snaps[j] matches Some(s) && admitted(s@, kugou_enabled))),
    decreases snaps.len() - from,
{
    if from < snaps.len() {
        law_selected_source_comes_first(snaps, kugou_enabled, from + 1);
    }
}

/// A playback command from the renderer.
#[derive(Debug, Clone, Copy, PartialEq, Eq, Structural)]
pub enum MusicAction {
    Play,
    Pause,
    Next,
    Prev,
    Volume,
}

/// What a command does: a playback command routed to the sources (with the message
/// to show), or the master volume set to a percentage.
#[derive(Debug, Clone, PartialEq, Eq)]
pub enum ControlPlan {
    Route(Control, String),
    Volume(i64),
}

/// The volume percentage asked for: the level clamped to 0 to 100, 50 without one.
pub open spec fn spec_volume_percent(level: Option<i64>) -> i64 {
    match level {
        Some(l) => if l < 0 {
            0
        } else if l > 100 {
            100
        } else {
            l
        },
        None => 50,
    }
}

/// The plan for a renderer command.
pub fn control(action: MusicAction, level: Option<i64>) -> (r: ControlPlan)
    ensures
        match action {
            MusicAction::Play => (r matches ControlPlan::Route(c, m) && c == Control::Play && m@
                == "已发送播放指令。"@),
            MusicAction::Pause => (r matches ControlPlan::Route(c, m) && c == Control::Pause && m@
                == "已发送暂停指令。"@),
            MusicAction::Next => (r matches ControlPlan::Route(c, m) && c == Control::Next && m@
                == "已切换到下一首。"@),
            MusicAction::Prev => (r matches ControlPlan::Route(c, m) && c == Control::Prev && m@
                == "已切换到上一首。"@),
            MusicAction::Volume => r == ControlPlan::Volume(spec_volume_percent(level)),
        },
{
    match action {
        MusicAction::Play => ControlPlan::Route(Control::Play, "已发送播放指令。".to_owned()),
        MusicAction::Pause => ControlPlan::Route(Control::Pause, "已发送暂停指令。".to_owned()),
        MusicAction::Next => ControlPlan::Route(Control::Next, "已切换到下一首。".to_owned()),
        MusicAction::Prev => ControlPlan::Route(Control::Prev, "已切换到上一首。".to_owned()),
        MusicAction::Volume => {
            let p = match level {
                Some(l) => if l < 0 {
                    0
                } else if l > 100 {
                    100
                } else {
                    l
                },
                None => 50,
            };
            ControlPlan::Volume(p)
        },
    }
}

/// The message after setting the volume: the percentage, or that it could not be set.
pub fn volume_message(percent: i64, ok: bool) -> (r: String)
    ensures
        ok ==> r@ == "音量已设置为 "@ + decimal(percent as int) + "%"@,
        !ok ==> r@ == "无法调整音量。"@,
{
    if ok {
        join3("音量已设置为 ", decimal_text(percent).as_str(), "%")
    } else {
        "无法调整音量。".to_owned()
    }
}

} // verus!

verus! {

/// The first track the tracker ever sees may already be half played: its sample is
/// adopted at once as the anchor (and dates the track's start), with the wall-clock
/// rate.
pub proof fn law_first_sight_adopts_sample(
    t: TrackerState,
    track: Seq<char>,
    playing: bool,
    now: int,
    s: PositionSample,
    duration: Option<i64>,
)
    requires
        t.track.len() == 0,
        track.len() > 0,
    ensures
        ({
            let n = t.observe(track, playing, now, Some(s), duration);
            &&& n.anchor_pos == s.position_ms
            &&& n.anchor_epoch == s.at_epoch_ms
            &&& n.track_start == s.at_epoch_ms - s.position_ms
            &&& n.rate_num == 1 && n.rate_den == 1
            &&& n.last_sample == Some(s)
        }),
{
}

} // verus!

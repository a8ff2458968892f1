//! The progress estimator: a pure state machine that folds noisy raw
//! signals — elapsed time, bytes on disk, file markers and the tool's own
//! reported percentage — into one monotonic percentage, an ETA and a
//! status.  The published value never decreases and never exceeds 100.

use vstd::prelude::*;

use crate::text::{append_dec, spec_dec};

verus! {

/// The raw signals gathered in one sampling tick.
#[derive(Clone, Copy, Debug)]
pub struct TickSample {
    /// Whole seconds since the job started.
    pub elapsed_seconds: u64,
    /// Total bytes of all files in the working directory.
    pub bytes_on_disk: u64,
    /// Whether a partial or temporary file marker is present.
    pub has_partial_file: bool,
    /// Whether a final media file is present (downloading has moved on to
    /// processing).
    pub has_media_file: bool,
    /// The tool's own reported percentage in tenths, where one of its
    /// output lines parsed this tick; an optional secondary signal.
    pub tool_percent_tenths: Option<u64>,
}

/// What the estimate currently says the job is doing.
#[derive(Clone, Copy, PartialEq, Eq, Structural, Debug)]
pub enum StatusCode {
    Initializing,
    Waiting,
    Downloading,
    Stalled,
    Processing,
    Complete,
}

/// The estimator's state between ticks.
#[derive(Clone, Copy, PartialEq, Eq, Structural, Debug)]
pub struct EstimatorState {
    /// The last published percentage, 0..=100.
    pub published: u64,
    /// The job's estimated total size in bytes, at least one.
    pub estimated_total: u64,
    /// Bytes on disk at the previous tick.
    pub last_bytes: u64,
    /// Consecutive ticks without byte growth while a partial file was
    /// present, saturated at the stall threshold.
    pub stalled_ticks: u64,
    /// Whether a partial file has ever been seen.
    pub download_started: bool,
}

/// Ticks without byte growth before a download counts as stalled.
pub const STALL_TICKS: u64 = 10;

impl EstimatorState {
    pub open spec fn wf(self) -> bool {
        self.published <= 100 && self.estimated_total >= 1 && self.stalled_ticks <= STALL_TICKS
    }

    /// A fresh estimator at a given starting percentage.
    pub fn new(published: u64, estimated_total: u64) -> (r: EstimatorState)
        requires
            published <= 100,
            estimated_total >= 1,
        ensures
            r == (EstimatorState {
                published,
                estimated_total,
                last_bytes: 0,
                stalled_ticks: 0,
                download_started: false,
            }),
            r.wf(),
    {
        EstimatorState {
            published,
            estimated_total,
            last_bytes: 0,
            stalled_ticks: 0,
            download_started: false,
        }
    }

    /// Raise the published value to at least `p`, as the orchestrator does
    /// at its phase milestones.
    pub fn raise_to(&mut self, p: u64)
        requires
            old(self).wf(),
            p <= 100,
        ensures
            *final(self) == (EstimatorState {
                published: spec_max(old(self).published, p),
                ..*old(self)
            }),
            final(self).wf(),
            final(self).published >= old(self).published,
    {
        if p > self.published {
            self.published = p;
        }
    }
}

/// The larger of two values.
pub open spec fn spec_max(a: u64, b: u64) -> u64 {
    if a >= b {
        a
    } else {
        b
    }
}

/// The smaller of two values.
pub open spec fn spec_min(a: u64, b: u64) -> u64 {
    if a <= b {
        a
    } else {
        b
    }
}

/// The slowest-growth curve shown absent better information: the ceiling
/// percentage for the elapsed time, from the fixed stage table.
pub open spec fn time_ceiling(elapsed: u64) -> u64 {
    if elapsed >= 50 {
        95
    } else if elapsed >= 45 {
        90
    } else if elapsed >= 40 {
        85
    } else if elapsed >= 35 {
        80
    } else if elapsed >= 30 {
        75
    } else if elapsed >= 26 {
        70
    } else if elapsed >= 23 {
        65
    } else if elapsed >= 20 {
        60
    } else if elapsed >= 18 {
        55
    } else if elapsed >= 16 {
        50
    } else if elapsed >= 14 {
        45
    } else if elapsed >= 12 {
        40
    } else if elapsed >= 10 {
        35
    } else if elapsed >= 8 {
        30
    } else if elapsed >= 6 {
        25
    } else if elapsed >= 4 {
        20
    } else if elapsed >= 3 {
        15
    } else if elapsed >= 2 {
        10
    } else if elapsed >= 1 {
        5
    } else {
        0
    }
}

/// The time ceiling never decreases as time passes.
pub proof fn lemma_time_ceiling_monotonic(a: u64, b: u64)
    requires
        a <= b,
    ensures
        time_ceiling(a) <= time_ceiling(b),
{
}

/// Compute the time ceiling for an elapsed time.
pub fn exec_time_ceiling(elapsed: u64) -> (r: u64)
    ensures
        r == time_ceiling(elapsed),
{
    if elapsed >= 50 {
        95
    } else if elapsed >= 45 {
        90
    } else if elapsed >= 40 {
        85
    } else if elapsed >= 35 {
        80
    } else if elapsed >= 30 {
        75
    } else if elapsed >= 26 {
        70
    } else if elapsed >= 23 {
        65
    } else if elapsed >= 20 {
        60
    } else if elapsed >= 18 {
        55
    } else if elapsed >= 16 {
        50
    } else if elapsed >= 14 {
        45
    } else if elapsed >= 12 {
        40
    } else if elapsed >= 10 {
        35
    } else if elapsed >= 8 {
        30
    } else if elapsed >= 6 {
        25
    } else if elapsed >= 4 {
        20
    } else if elapsed >= 3 {
        15
    } else if elapsed >= 2 {
        10
    } else if elapsed >= 1 {
        5
    } else {
        0
    }
}

/// The byte-ratio estimate, scaled into the 10–80 download band.
pub open spec fn byte_band_estimate(bytes: u64, total: u64) -> u64
    recommends
        total >= 1,
{
    if bytes >= total {
        80
    } else {
        (10 + (bytes as nat) * 70 / (total as nat)) as u64
    }
}

/// The tool's own percentage scaled into the 10–80 download band.
pub open spec fn tool_band_estimate(tenths: u64) -> u64 {
    (10 + spec_min(tenths, 1000) as nat * 70 / 1000) as u64
}

/// Whether this tick continues a byte stall.
pub open spec fn stall_continues(st: EstimatorState, s: TickSample) -> bool {
    s.has_partial_file && s.bytes_on_disk == st.last_bytes
}

/// The stall counter after this tick, saturated at the threshold.
pub open spec fn next_stalled_ticks(st: EstimatorState, s: TickSample) -> u64 {
    if stall_continues(st, s) {
        spec_min((st.stalled_ticks + 1) as u64, STALL_TICKS)
    } else {
        0
    }
}

/// Whether the download counts as stalled after this tick.
pub open spec fn is_stalled(st: EstimatorState, s: TickSample) -> bool {
    next_stalled_ticks(st, s) >= STALL_TICKS && !s.has_media_file
}

/// The phase-based estimate for this tick, before clamping: the
/// processing band once a media file appears, the download band scaled by
/// bytes (and the tool's own figure, where one parsed) once bytes flow,
/// and the initialization band before that.
pub open spec fn phase_estimate(st: EstimatorState, s: TickSample) -> u64 {
    let started = st.download_started || s.has_partial_file;
    if s.has_media_file {
        (80 + s.elapsed_seconds % 10) as u64
    } else if started && s.bytes_on_disk > 0 {
        let base = byte_band_estimate(s.bytes_on_disk, st.estimated_total);
        match s.tool_percent_tenths {
            Some(t) => spec_max(base, tool_band_estimate(t)),
            None => base,
        }
    } else if started {
        10
    } else {
        (5 + spec_min(s.elapsed_seconds, 5)) as u64
    }
}

/// The percentage published after this tick: unchanged during a stall,
/// otherwise the previous value raised toward the lesser of the time
/// ceiling and the phase estimate, by at most five points per tick.
pub open spec fn next_published(st: EstimatorState, s: TickSample) -> u64 {
    if is_stalled(st, s) {
        st.published
    } else {
        let candidate = spec_min(time_ceiling(s.elapsed_seconds), phase_estimate(st, s));
        spec_max(st.published, spec_min(candidate, (st.published + 5) as u64))
    }
}

/// The ETA published after this tick: remaining bytes over the observed
/// rate, and zero ("calculating") when the rate is too small to trust or
/// the download is not in its byte-flow phase.
pub open spec fn next_eta(st: EstimatorState, s: TickSample) -> u64 {
    let started = st.download_started || s.has_partial_file;
    if s.has_media_file || !started || s.bytes_on_disk == 0 {
        0
    } else {
        let rate = (s.bytes_on_disk as int) / (spec_max(s.elapsed_seconds, 1) as int);
        if rate > 100 {
            (((st.estimated_total as int) - (spec_min(s.bytes_on_disk, st.estimated_total) as int))
                / rate) as u64
        } else {
            0
        }
    }
}

/// The status code after this tick.
pub open spec fn next_status(st: EstimatorState, s: TickSample) -> StatusCode {
    let started = st.download_started || s.has_partial_file;
    if s.has_media_file {
        StatusCode::Processing
    } else if is_stalled(st, s) {
        StatusCode::Stalled
    } else if started && s.bytes_on_disk > 0 {
        StatusCode::Downloading
    } else {
        StatusCode::Waiting
    }
}

/// The whole effect of one tick on the estimator state.
pub open spec fn spec_tick(st: EstimatorState, s: TickSample) -> EstimatorState {
    EstimatorState {
        published: next_published(st, s),
        estimated_total: st.estimated_total,
        last_bytes: s.bytes_on_disk,
        stalled_ticks: next_stalled_ticks(st, s),
        download_started: st.download_started || s.has_partial_file,
    }
}

/// One tick never lowers the published value, and keeps it within 100.
pub proof fn lemma_tick_monotonic(st: EstimatorState, s: TickSample)
    requires
        st.wf(),
    ensures
        spec_tick(st, s).wf(),
        spec_tick(st, s).published >= st.published,
{
    if !is_stalled(st, s) {
        let pe = phase_estimate(st, s);
        assert(pe <= 95) by {
            if !s.has_media_file && (st.download_started || s.has_partial_file)
                && s.bytes_on_disk > 0 {
                let b = s.bytes_on_disk as nat;
                let t = st.estimated_total as nat;
                if b < t {
                    assert(b * 70 / t <= 70) by (nonlinear_arith)
                        requires
                            b < t,
                            t >= 1,
                    ;
                }
                assert(spec_min(s.tool_percent_tenths->Some_0, 1000) as nat * 70 / 1000 <= 70) by (
                nonlinear_arith);
            }
        }
    }
}

impl EstimatorState {
    /// Fold one tick's raw signals into the estimate, returning the
    /// percentage, the ETA and the status to publish.
    pub fn tick(&mut self, s: &TickSample) -> (r: (u64, u64, StatusCode))
        requires
            old(self).wf(),
        ensures
            *final(self) == spec_tick(*old(self), *s),
            final(self).wf(),
            final(self).published >= old(self).published,
            r.0 == next_published(*old(self), *s),
            r.1 == next_eta(*old(self), *s),
            r.2 == next_status(*old(self), *s),
    {
        proof {
            lemma_tick_monotonic(*self, *s);
        }
        let started = self.download_started || s.has_partial_file;
        let stalled_ticks: u64 = if s.has_partial_file && s.bytes_on_disk == self.last_bytes {
            if self.stalled_ticks + 1 <= STALL_TICKS {
                self.stalled_ticks + 1
            } else {
                STALL_TICKS
            }
        } else {
            0
        };
        let stalled = stalled_ticks >= STALL_TICKS && !s.has_media_file;
        let percent: u64 = if stalled {
            self.published
        } else {
            let pe: u64 = if s.has_media_file {
                80 + s.elapsed_seconds % 10
            } else if started && s.bytes_on_disk > 0 {
                let base: u64 = if s.bytes_on_disk >= self.estimated_total {
                    80
                } else {
                    proof {
                        assert(
                            (s.bytes_on_disk as nat) * 70 / (self.estimated_total as nat) <= 70)
                            by (nonlinear_arith)
                            requires
                                (s.bytes_on_disk as nat) < (self.estimated_total as nat),
                                self.estimated_total >= 1,
                        ;
                    }
                    10 + ((s.bytes_on_disk as u128 * 70 / self.estimated_total as u128) as u64)
                };
                match s.tool_percent_tenths {
                    Some(t) => {
                        let capped = if t <= 1000 {
                            t
                        } else {
                            1000
                        };
                        let tool = 10 + ((capped as u128 * 70 / 1000) as u64);
                        proof {
                            assert(spec_min(t, 1000) as nat * 70 / 1000 <= 70) by (
                            nonlinear_arith);
                        }
                        if base >= tool {
                            base
                        } else {
                            tool
                        }
                    },
                    None => base,
                }
            } else if started {
                10
            } else {
                let w = if s.elapsed_seconds <= 5 {
                    s.elapsed_seconds
                } else {
                    5
                };
                5 + w
            };
            let tc = exec_time_ceiling(s.elapsed_seconds);
            let candidate = if tc <= pe {
                tc
            } else {
                pe
            };
            let capped = if candidate <= self.published + 5 {
                candidate
            } else {
                self.published + 5
            };
            if self.published >= capped {
                self.published
            } else {
                capped
            }
        };
        let eta: u64 = if s.has_media_file || !started || s.bytes_on_disk == 0 {
            0
        } else {
            let denom = if s.elapsed_seconds >= 1 {
                s.elapsed_seconds
            } else {
                1
            };
            let rate = s.bytes_on_disk / denom;
            if rate > 100 {
                let done = if s.bytes_on_disk <= self.estimated_total {
                    s.bytes_on_disk
                } else {
                    self.estimated_total
                };
                (self.estimated_total - done) / rate
            } else {
                0
            }
        };
        let status = if s.has_media_file {
            StatusCode::Processing
        } else if stalled {
            StatusCode::Stalled
        } else if started && s.bytes_on_disk > 0 {
            StatusCode::Downloading
        } else {
            StatusCode::Waiting
        };
        self.published = percent;
        self.last_bytes = s.bytes_on_disk;
        self.stalled_ticks = stalled_ticks;
        self.download_started = started;
        (percent, eta, status)
    }
}

/// The estimator state after a whole sequence of ticks.
pub open spec fn spec_run(st: EstimatorState, samples: Seq<TickSample>) -> EstimatorState
    decreases samples.len(),
{
    if samples.len() == 0 {
        st
    } else {
        spec_tick(spec_run(st, samples.drop_last()), samples.last())
    }
}

/// Well-formedness survives any run of ticks.
pub proof fn lemma_run_wf(st: EstimatorState, samples: Seq<TickSample>)
    requires
        st.wf(),
    ensures
        spec_run(st, samples).wf(),
    decreases samples.len(),
{
    if samples.len() > 0 {
        lemma_run_wf(st, samples.drop_last());
        lemma_tick_monotonic(spec_run(st, samples.drop_last()), samples.last());
    }
}

/// Monotonicity: for any sequence of raw-signal samples, the published
/// percentages are non-decreasing — after any two prefixes of the same
/// run, the longer prefix's published value is at least the shorter's.
pub proof fn lemma_published_monotonic(st: EstimatorState, samples: Seq<TickSample>, i: int, j: int)
    requires
        st.wf(),
        0 <= i <= j <= samples.len(),
    ensures
        spec_run(st, samples.take(i)).published <= spec_run(st, samples.take(j)).published,
    decreases j - i,
{
    if i < j {
        lemma_published_monotonic(st, samples, i, j - 1);
        let prev = spec_run(st, samples.take(j - 1));
        lemma_run_wf(st, samples.take(j - 1));
        assert(samples.take(j).drop_last() =~= samples.take(j - 1));
        lemma_tick_monotonic(prev, samples.take(j).last());
    }
}

/// Stall reporting: as soon as the byte count has been unchanged for the
/// threshold number of consecutive ticks while a partial file is present,
/// the status says stalled and the percentage stays exactly where it was.
pub proof fn lemma_stall_freezes_percent(st: EstimatorState, s: TickSample)
    requires
        st.wf(),
        s.has_partial_file,
        !s.has_media_file,
        s.bytes_on_disk == st.last_bytes,
        st.stalled_ticks + 1 >= STALL_TICKS,
    ensures
        next_status(st, s) == StatusCode::Stalled,
        next_published(st, s) == st.published,
        spec_tick(st, s).published == st.published,
{
}

/// The status line texts the estimator's codes render to.
pub open spec fn spec_render_status(code: StatusCode, percent: u64, title: Seq<char>) -> Seq<
    char,
> {
    match code {
        StatusCode::Initializing => "Initializing download..."@,
        StatusCode::Waiting => "Starting download of "@ + title + "..."@,
        StatusCode::Downloading => "Downloading: "@ + spec_dec(percent as nat) + "% of "@ + title,
        StatusCode::Stalled => "Download stalled at "@ + spec_dec(percent as nat) + "%..."@,
        StatusCode::Processing => "Processing video..."@,
        StatusCode::Complete => "Download complete!"@,
    }
}

/// Render a status code to its display line.
pub fn render_status(code: StatusCode, percent: u64, title: &str) -> (r: String)
    ensures
        r@ == spec_render_status(code, percent, title@),
{
    match code {
        StatusCode::Initializing => String::from_str("Initializing download..."),
        StatusCode::Waiting => {
            let mut r = String::from_str("Starting download of ");
            r.append(title);
            r.append("...");
            proof {
                assert(r@ =~= spec_render_status(code, percent, title@));
            }
            r
        },
        StatusCode::Downloading => {
            let mut r = String::from_str("Downloading: ");
            append_dec(&mut r, percent);
            r.append("% of ");
            r.append(title);
            proof {
                assert(r@ =~= spec_render_status(code, percent, title@));
            }
            r
        },
        StatusCode::Stalled => {
            let mut r = String::from_str("Download stalled at ");
            append_dec(&mut r, percent);
            r.append("%...");
            proof {
                assert(r@ =~= spec_render_status(code, percent, title@));
            }
            r
        },
        StatusCode::Processing => String::from_str("Processing video..."),
        StatusCode::Complete => String::from_str("Download complete!"),
    }
}

} // verus!

//! OBS process and rendering statistics (`GetStats`, `GetStreamStatus`).
//!
//! obs-websocket v5 has no server-pushed statistics event, so these snapshots
//! arrive from a poll loop that runs for as long as the OBS session is alive.
//! [`StatsHistory`] keeps the recent samples so the Stats page can draw them as
//! time series without re-querying OBS.
//!
//! Measurements that OBS reports as floating-point numbers are held as the
//! bit patterns of those `f64` values; the frame counters are plain integers.

use vstd::prelude::*;
use std::collections::VecDeque;

verus! {

/// Number of samples kept for the Stats page charts. At the one-second poll
/// cadence this is two minutes of history.
pub const STATS_HISTORY_CAPACITY: usize = 120;

/// Snapshot of OBS-reported performance counters, refreshed on a timer.
#[derive(Debug, Clone, Copy, PartialEq, Eq, Structural)]
pub struct ObsStats {
    /// Bit pattern of the OBS process CPU usage in percent.
    pub cpu_usage_percent: u64,
    /// Bit pattern of the memory used by OBS, in megabytes.
    pub memory_usage_mb: u64,
    /// Bit pattern of the FPS currently rendered by OBS.
    pub active_fps: u64,
    /// Bit pattern of the average frame render time in milliseconds.
    pub average_frame_render_time_ms: u64,
    /// Frames skipped by the render thread since OBS started.
    pub render_skipped_frames: u32,
    /// Total frames produced by the render thread since OBS started.
    pub render_total_frames: u32,
    /// Frames skipped by the output (encoder) thread since OBS started.
    pub output_skipped_frames: u32,
    /// Total frames produced by the output thread since OBS started.
    pub output_total_frames: u32,
}

impl ObsStats {
    /// Frames dropped by the output encoder, the number streamers care about
    /// most.
    pub fn dropped_frames(&self) -> (n: u32)
        ensures
            n == self.output_skipped_frames,
    {
        self.output_skipped_frames
    }
}

/// Stream-output health from `GetStreamStatus`. Only meaningful while the
/// stream output is active; OBS reports zeroed counters otherwise.
#[derive(Debug, Clone, Copy, PartialEq, Eq, Structural)]
pub struct StreamHealth {
    /// Whether the stream output is currently active.
    pub active: bool,
    /// Whether the stream output is trying to reconnect to the ingest server.
    pub reconnecting: bool,
    /// Bit pattern of the network congestion, a `0.0..=1.0` fraction.
    pub congestion: u64,
    /// Frames dropped by the stream output since it started.
    pub skipped_frames: u32,
    /// Total frames handled by the stream output since it started.
    pub total_frames: u32,
    /// Cumulative bytes sent by the stream output.
    pub bytes: u64,
}

/// One point in the recent statistics history.
///
/// OBS reports frame counters cumulatively since the process (or output)
/// started, so the deltas are derived on insert: they are what a "frames
/// dropped right now" chart needs, and the cumulative totals cannot show.
#[derive(Debug, Clone, Copy, PartialEq, Eq, Structural)]
pub struct StatsSample {
    /// Process counters at the time of this sample.
    pub stats: ObsStats,
    /// Bit pattern of the rolling stream bitrate in kbps, when one was
    /// derived.
    pub bitrate_kbps: Option<u64>,
    /// Stream output health, when the stream status read succeeded.
    pub stream: Option<StreamHealth>,
    /// Render-thread frames missed since the previous sample.
    pub render_skipped_delta: u32,
    /// Output-thread frames skipped since the previous sample.
    pub output_skipped_delta: u32,
}

/// A metric that can be plotted as a time series from [`StatsHistory`].
#[derive(Debug, Clone, Copy, PartialEq, Eq, Structural)]
pub enum StatsMetric {
    /// Frames per second currently rendered by OBS.
    Fps,
    /// Average frame render time in milliseconds.
    FrameRenderTimeMs,
    /// Render-thread frames missed per poll interval.
    RenderSkippedPerInterval,
    /// Output-thread frames skipped per poll interval.
    OutputSkippedPerInterval,
    /// Stream bitrate in kbps; zero while no bitrate has been derived yet.
    BitrateKbps,
    /// OBS process CPU usage in percent.
    CpuPercent,
    /// Stream network congestion as a `0.0..=1.0` fraction.
    Congestion,
}

/// How far a cumulative counter moved since the previous reading; a counter
/// that went backwards (OBS or the output restarted) moved by zero.
pub open spec fn counter_delta(now: u32, before: u32) -> u32 {
    if now >= before {
        (now - before) as u32
    } else {
        0
    }
}

/// The sample recorded for a poll result, given the previous sample.
pub open spec fn sample_after(
    previous: Option<StatsSample>,
    stats: ObsStats,
    bitrate_kbps: Option<u64>,
    stream: Option<StreamHealth>,
) -> StatsSample {
    StatsSample {
        stats,
        bitrate_kbps,
        stream,
        render_skipped_delta: match previous {
            Some(p) => counter_delta(stats.render_skipped_frames, p.stats.render_skipped_frames),
            None => 0,
        },
        output_skipped_delta: match previous {
            Some(p) => counter_delta(stats.output_skipped_frames, p.stats.output_skipped_frames),
            None => 0,
        },
    }
}

/// Bounded ring buffer of recent statistics samples.
#[derive(Debug)]
pub struct StatsHistory {
    samples: VecDeque<StatsSample>,
    capacity: usize,
}

impl View for StatsHistory {
    /// Retained samples, oldest first.
    type V = Seq<StatsSample>;

    closed spec fn view(&self) -> Seq<StatsSample> {
        self.samples@
    }
}

impl StatsHistory {
    /// At least one sample fits, and never more than fit are kept.
    #[verifier::type_invariant]
    spec fn within_capacity(self) -> bool {
        1 <= self.capacity && self.samples@.len() <= self.capacity
    }

    /// Most samples the history keeps.
    pub closed spec fn limit(&self) -> nat {
        self.capacity as nat
    }

    /// Create a history that keeps at most `capacity` samples. A zero capacity
    /// is treated as one so the latest sample is always retrievable.
    pub fn with_capacity(capacity: usize) -> (h: StatsHistory)
        ensures
            h@.len() == 0,
            h.limit() == if capacity == 0 { 1 } else { capacity as nat },
    {
        let capacity = if capacity == 0 { 1 } else { capacity };
        StatsHistory { samples: VecDeque::new(), capacity }
    }

    /// Most samples this history keeps.
    pub fn capacity(&self) -> (n: usize)
        ensures
            n == self.limit(),
            n >= 1,
    {
        proof {
            use_type_invariant(self);
        }
        self.capacity
    }

    /// Append a poll result, deriving the per-interval frame deltas against
    /// the previous sample and evicting the oldest sample once full.
    ///
    /// Counters that move backwards (OBS restarted, or the stream output was
    /// restarted) record a zero delta rather than a nonsensical spike.
    pub fn push(&mut self, stats: ObsStats, bitrate_kbps: Option<u64>, stream: Option<StreamHealth>)
        ensures
            final(self).limit() == old(self).limit(),
            ({
                let previous = if old(self)@.len() == 0 { None } else { Some(old(self)@.last()) };
                let kept = if old(self)@.len() == old(self).limit() { old(self)@.skip(1) } else { old(self)@ };
                final(self)@ == kept.push(sample_after(previous, stats, bitrate_kbps, stream))
            }),
            final(self)@.len() <= final(self).limit(),
    {
        proof {
            use_type_invariant(&*self);
        }
        let n = self.samples.len();
        let previous: Option<StatsSample> = if n == 0 { None } else { Some(self.samples[n - 1]) };
        let render_skipped_delta: u32 = match previous {
            Some(p) => if stats.render_skipped_frames >= p.stats.render_skipped_frames {
                stats.render_skipped_frames - p.stats.render_skipped_frames
            } else {
                0
            },
            None => 0,
        };
        let output_skipped_delta: u32 = match previous {
            Some(p) => if stats.output_skipped_frames >= p.stats.output_skipped_frames {
                stats.output_skipped_frames - p.stats.output_skipped_frames
            } else {
                0
            },
            None => 0,
        };
        let sample = StatsSample { stats, bitrate_kbps, stream, render_skipped_delta, output_skipped_delta };
        let mut samples = VecDeque::new();
        std::mem::swap(&mut samples, &mut self.samples);
        if samples.len() == self.capacity {
            let _ = samples.pop_front();
        }
        samples.push_back(sample);
        self.samples = samples;
    }

    /// Most recent sample, if any poll has completed.
    pub fn latest(&self) -> (r: Option<&StatsSample>)
        ensures
            match r {
                Some(s) => self@.len() > 0 && *s == self@.last(),
                None => self@.len() == 0,
            },
    {
        let n = self.samples.len();
        if n == 0 {
            None
        } else {
            Some(&self.samples[n - 1])
        }
    }

    /// The sample at `index`, oldest first.
    pub fn sample(&self, index: usize) -> (s: &StatsSample)
        requires
            index < self@.len(),
        ensures
            *s == self@[index as int],
    {
        &self.samples[index]
    }

    /// Number of samples currently retained.
    pub fn len(&self) -> (n: usize)
        ensures
            n == self@.len(),
    {
        self.samples.len()
    }

    /// Whether no sample has been recorded yet.
    pub fn is_empty(&self) -> (b: bool)
        ensures
            b == (self@.len() == 0),
    {
        self.samples.len() == 0
    }

    /// Drop every retained sample, e.g. when the OBS session ends.
    pub fn clear(&mut self)
        ensures
            final(self)@.len() == 0,
            final(self).limit() == old(self).limit(),
    {
        proof {
            use_type_invariant(&*self);
        }
        let mut samples = VecDeque::new();
        std::mem::swap(&mut samples, &mut self.samples);
        samples.clear();
        self.samples = samples;
    }
}

impl Clone for StatsHistory {
    fn clone(&self) -> (h: StatsHistory)
        ensures
            h@ == self@,
            h.limit() == self.limit(),
    {
        proof {
            use_type_invariant(self);
        }
        let mut samples: VecDeque<StatsSample> = VecDeque::new();
        let mut i: usize = 0;
        while i < self.samples.len()
            invariant
                i <= self.samples@.len(),
                samples@ == self.samples@.take(i as int),
            decreases self.samples@.len() - i,
        {
            samples.push_back(self.samples[i]);
            assert(samples@ =~= self.samples@.take(i + 1));
            i = i + 1;
        }
        assert(samples@ =~= self.samples@);
        StatsHistory { samples, capacity: self.capacity }
    }
}

impl Default for StatsHistory {
    fn default() -> (h: StatsHistory)
        ensures
            h@.len() == 0,
            h.limit() == STATS_HISTORY_CAPACITY,
    {
        StatsHistory::with_capacity(STATS_HISTORY_CAPACITY)
    }
}

/// However many samples are pushed, the history never holds more than its
/// capacity, and the newest sample is always the last one pushed.
pub proof fn lemma_history_stays_bounded(h: StatsHistory, stats: ObsStats, bitrate_kbps: Option<u64>, stream: Option<StreamHealth>)
    requires
        h@.len() <= h.limit(),
        h.limit() >= 1,
    ensures
        ({
            let previous = if h@.len() == 0 { None } else { Some(h@.last()) };
            let kept = if h@.len() == h.limit() { h@.skip(1) } else { h@ };
            let next = kept.push(sample_after(previous, stats, bitrate_kbps, stream));
            &&& next.len() <= h.limit()
            &&& next.last() == sample_after(previous, stats, bitrate_kbps, stream)
            &&& next.len() == if h@.len() == h.limit() { h@.len() } else { h@.len() + 1 }
        }),
{
}

} // verus!

//! Frame-time bookkeeping for a performance monitoring panel.
//!
//! The panel keeps a rolling window of frame durations, per-phase timings,
//! bottleneck counters and cache statistics, and can freeze the current
//! percentiles as a baseline for later comparison. All durations are in
//! nanoseconds; the caller supplies the clock readings, so everything here
//! is deterministic and verified. Rendering lives outside this crate.

use vstd::prelude::*;
use vstd::relations::sorted_by;
use vstd::seq_lib::lemma_sorted_unique;

verus! {

/// Number of frames kept in the rolling window (about one second at 60
/// frames per second).
pub const WINDOW_SIZE: usize = 60;

/// The ordering by which frame times are sorted for percentiles.
pub open spec fn u64_le() -> spec_fn(u64, u64) -> bool {
    |a: u64, b: u64| a <= b
}

/// `u64_le` is a total ordering, so sorting by it is well defined.
pub proof fn lemma_u64_le_total_ordering()
    ensures
        vstd::relations::total_ordering(u64_le()),
{
}

/// Wall-clock time spent in each phase of a frame, in nanoseconds.
#[derive(Clone, Copy, Debug, Default, PartialEq, Eq, Structural)]
pub struct PhaseTimings {
    pub blueprint_query: u64,
    pub query_results: u64,
    pub update_overrides: u64,
    pub execute_systems: u64,
    pub ui_rendering: u64,
    pub gc: u64,
}

/// The sum of all phase durations.
pub open spec fn spec_total(t: PhaseTimings) -> int {
    t.blueprint_query + t.query_results + t.update_overrides + t.execute_systems + t.ui_rendering
        + t.gc
}

/// The largest single phase duration.
pub open spec fn spec_max_phase(t: PhaseTimings) -> u64 {
    max2(
        t.blueprint_query,
        max2(t.query_results, max2(t.update_overrides, max2(t.execute_systems, max2(t.ui_rendering, t.gc)))),
    )
}

/// The larger of two durations.
pub open spec fn max2(a: u64, b: u64) -> u64 {
    if a >= b {
        a
    } else {
        b
    }
}

/// The name of the slowest phase: the first phase, in display order, whose
/// duration equals the maximum; `"None"` when no phase took any time.
pub open spec fn spec_bottleneck_phase(t: PhaseTimings) -> Seq<char> {
    let m = spec_max_phase(t);
    if m == 0 {
        "None"@
    } else if t.blueprint_query == m {
        "Blueprint Query"@
    } else if t.query_results == m {
        "Query Results"@
    } else if t.update_overrides == m {
        "Update Overrides"@
    } else if t.execute_systems == m {
        "Execute Systems"@
    } else if t.ui_rendering == m {
        "UI Rendering"@
    } else {
        "GC"@
    }
}

impl PhaseTimings {
    /// Total time spent across all phases.
    pub fn total(&self) -> (r: u64)
        requires
            spec_total(*self) <= u64::MAX,
        ensures
            r == spec_total(*self),
    {
        self.blueprint_query + self.query_results + self.update_overrides + self.execute_systems
            + self.ui_rendering + self.gc
    }

    /// The name of the phase that dominates this frame.
    pub fn bottleneck_phase(&self) -> (r: &'static str)
        ensures
            r@ == spec_bottleneck_phase(*self),
    {
        let mut max_duration: u64 = 0;
        let mut phase_name: &'static str = "None";

        if self.blueprint_query > max_duration {
            max_duration = self.blueprint_query;
            phase_name = "Blueprint Query";
        }
        if self.query_results > max_duration {
            max_duration = self.query_results;
            phase_name = "Query Results";
        }
        if self.update_overrides > max_duration {
            max_duration = self.update_overrides;
            phase_name = "Update Overrides";
        }
        if self.execute_systems > max_duration {
            max_duration = self.execute_systems;
            phase_name = "Execute Systems";
        }
        if self.ui_rendering > max_duration {
            max_duration = self.ui_rendering;
            phase_name = "UI Rendering";
        }
        if self.gc > max_duration {
            max_duration = self.gc;
            phase_name = "GC";
        }

        phase_name
    }
}

/// Per-frame counters for the known rendering bottlenecks.
#[derive(Clone, Copy, Debug, Default, PartialEq, Eq, Structural)]
pub struct BottleneckMetrics {
    pub annotation_loads_per_frame: u64,
    pub entity_tree_walks_per_frame: u64,
    pub transform_invalidations_per_frame: u64,
    pub timelines_indexed_per_frame: u64,
    pub timelines_total: u64,
    pub blueprint_tree_rebuilds_per_frame: u64,
    pub query_traversals_per_frame: u64,
    pub system_overhead_us: u64,
    pub time_series_tessellation_count: u64,
}

/// Hit and miss counts for the caches the panel watches.
#[derive(Clone, Copy, Debug, Default, PartialEq, Eq, Structural)]
pub struct CacheStatistics {
    pub query_cache_hits: u64,
    pub query_cache_misses: u64,
    pub transform_cache_hits: u64,
    pub transform_cache_misses: u64,
    pub blueprint_tree_cache_hits: u64,
    pub blueprint_tree_cache_misses: u64,
}

/// Memory usage as reported by the allocator and the operating system.
#[derive(Clone, Copy, Debug, Default, PartialEq, Eq, Structural)]
pub struct MemoryStatistics {
    pub rss_bytes: u64,
    pub counted_bytes: u64,
}

/// The values of the process-wide metric counters, read and reset by the
/// caller at the end of a frame.
#[derive(Clone, Copy, Debug, Default, PartialEq, Eq, Structural)]
pub struct MetricsSnapshot {
    pub annotation_loads: u64,
    pub entity_tree_walks: u64,
    pub transform_invalidations: u64,
    pub blueprint_tree_rebuilds: u64,
    pub query_traversals: u64,
    pub query_cache_hits: u64,
    pub query_cache_misses: u64,
    pub transform_cache_hits: u64,
    pub transform_cache_misses: u64,
    pub blueprint_tree_cache_hits: u64,
    pub blueprint_tree_cache_misses: u64,
}

/// Frame-time percentiles frozen at some instant, for comparison.
#[derive(Clone, Copy, Debug, PartialEq, Eq, Structural)]
pub struct PerformanceBaseline {
    pub p50: u64,
    pub p95: u64,
    pub p99: u64,
}

/// The percentile of a multiset of frame times: the element at position
/// `len * pct / 100` (clamped to the last position) of the sorted times,
/// or zero when there are none.
pub open spec fn spec_percentile(times: Seq<u64>, pct: int) -> u64 {
    if times.len() == 0 {
        0
    } else {
        let sorted = times.sort_by(u64_le());
        let idx = times.len() * pct / 100;
        let i = if idx > times.len() - 1 {
            times.len() - 1
        } else {
            idx
        };
        sorted[i]
    }
}

/// The rolling window after recording one more frame time: the newest value
/// is appended and the oldest values beyond the window size are dropped.
pub open spec fn spec_window_push(s: Seq<u64>, x: u64) -> Seq<u64> {
    let t = s.push(x);
    if t.len() > WINDOW_SIZE {
        t.skip(t.len() - WINDOW_SIZE)
    } else {
        t
    }
}

/// Performance metrics collector.
pub struct PerformancePanel {
    /// Whether panel is collecting at all.
    pub enabled: bool,
    /// Data collection state.
    pub paused: bool,
    /// Rolling window of frame times, in nanoseconds.
    pub frame_times: std::collections::VecDeque<u64>,
    /// Clock reading at the start of the current frame.
    pub frame_start: Option<u64>,
    /// Total frames collected.
    pub total_frames: u64,
    /// Per-phase timings (updated each frame).
    pub phase_timings: PhaseTimings,
    /// Bottleneck-specific metrics.
    pub bottleneck_metrics: BottleneckMetrics,
    /// Cache statistics.
    pub cache_stats: CacheStatistics,
    /// Memory usage tracking.
    pub memory_stats: MemoryStatistics,
    /// Baseline for comparison, if one has been set.
    pub baseline: Option<PerformanceBaseline>,
}

impl PerformancePanel {
    /// A fresh panel: disabled, with no data collected.
    pub fn new() -> (r: Self)
        ensures
            !r.enabled,
            !r.paused,
            r.frame_times@ == Seq::<u64>::empty(),
            r.frame_start is None,
            r.total_frames == 0,
            r.phase_timings == PhaseTimings::spec_zero(),
            r.bottleneck_metrics == BottleneckMetrics::spec_zero(),
            r.cache_stats == CacheStatistics::spec_zero(),
            r.memory_stats == MemoryStatistics::spec_zero(),
            r.baseline is None,
    {
        PerformancePanel {
            enabled: false,
            paused: false,
            frame_times: std::collections::VecDeque::new(),
            frame_start: None,
            total_frames: 0,
            phase_timings: PhaseTimings {
                blueprint_query: 0,
                query_results: 0,
                update_overrides: 0,
                execute_systems: 0,
                ui_rendering: 0,
                gc: 0,
            },
            bottleneck_metrics: BottleneckMetrics {
                annotation_loads_per_frame: 0,
                entity_tree_walks_per_frame: 0,
                transform_invalidations_per_frame: 0,
                timelines_indexed_per_frame: 0,
                timelines_total: 0,
                blueprint_tree_rebuilds_per_frame: 0,
                query_traversals_per_frame: 0,
                system_overhead_us: 0,
                time_series_tessellation_count: 0,
            },
            cache_stats: CacheStatistics {
                query_cache_hits: 0,
                query_cache_misses: 0,
                transform_cache_hits: 0,
                transform_cache_misses: 0,
                blueprint_tree_cache_hits: 0,
                blueprint_tree_cache_misses: 0,
            },
            memory_stats: MemoryStatistics { rss_bytes: 0, counted_bytes: 0 },
            baseline: None,
        }
    }

    /// Call at the start of a frame with the current clock reading.
    pub fn begin_frame(&mut self, now_nanos: u64)
        ensures
            (!old(self).enabled || old(self).paused) ==> *final(self) == *old(self),
            (old(self).enabled && !old(self).paused) ==> *final(self) == (PerformancePanel {
                frame_start: Some(now_nanos),
                ..*old(self)
            }),
    {
        if !self.enabled || self.paused {
            return ;
        }
        self.frame_start = Some(now_nanos);
    }

    /// Call at the end of a frame with the current clock reading and the
    /// metric counters collected during the frame.
    ///
    /// Records the frame duration in the rolling window, counts the frame,
    /// and publishes the per-frame metric and cache counters.
    pub fn end_frame(&mut self, now_nanos: u64, metrics: MetricsSnapshot)
        requires
            old(self).total_frames < u64::MAX,
        ensures
            (!old(self).enabled || old(self).paused) ==> *final(self) == *old(self),
            (old(self).enabled && !old(self).paused && old(self).frame_start is None)
                ==> *final(self) == *old(self),
            (old(self).enabled && !old(self).paused) ==> (old(self).frame_start matches Some(start)
                ==> {
                let ft: u64 = if now_nanos >= start {
                    (now_nanos - start) as u64
                } else {
                    0u64
                };
                *final(self) == (PerformancePanel {
                    frame_times: final(self).frame_times,
                    frame_start: None,
                    total_frames: (old(self).total_frames + 1) as u64,
                    bottleneck_metrics: BottleneckMetrics {
                        annotation_loads_per_frame: metrics.annotation_loads,
                        entity_tree_walks_per_frame: metrics.entity_tree_walks,
                        transform_invalidations_per_frame: metrics.transform_invalidations,
                        blueprint_tree_rebuilds_per_frame: metrics.blueprint_tree_rebuilds,
                        query_traversals_per_frame: metrics.query_traversals,
                        ..old(self).bottleneck_metrics
                    },
                    cache_stats: CacheStatistics {
                        query_cache_hits: metrics.query_cache_hits,
                        query_cache_misses: metrics.query_cache_misses,
                        transform_cache_hits: metrics.transform_cache_hits,
                        transform_cache_misses: metrics.transform_cache_misses,
                        blueprint_tree_cache_hits: metrics.blueprint_tree_cache_hits,
                        blueprint_tree_cache_misses: metrics.blueprint_tree_cache_misses,
                    },
                    ..*old(self)
                }) && final(self).frame_times@ == spec_window_push(old(self).frame_times@, ft)
            }),
    {
        if !self.enabled || self.paused {
            return ;
        }

        let frame_start = self.frame_start;
        self.frame_start = None;
        if let Some(start) = frame_start {
            let frame_time: u64 = if now_nanos >= start {
                now_nanos - start
            } else {
                0
            };
            self.frame_times.push_back(frame_time);

            let ghost pushed = old(self).frame_times@.push(frame_time);
            // Keep only the last WINDOW_SIZE frames.
            while self.frame_times.len() > WINDOW_SIZE
                invariant
                    self.frame_times@.len() <= pushed.len(),
                    self.frame_times@.len() >= if pushed.len() <= WINDOW_SIZE {
                        pushed.len() as int
                    } else {
                        WINDOW_SIZE as int
                    },
                    self.frame_times@ =~= pushed.skip(pushed.len() - self.frame_times@.len()),
                    *self == (PerformancePanel {
                        frame_times: self.frame_times,
                        frame_start: None,
                        ..*old(self)
                    }),
                decreases self.frame_times@.len(),
            {
                let _ = self.frame_times.pop_front();
            }
            proof {
                assert(self.frame_times@ =~= spec_window_push(old(self).frame_times@, frame_time));
            }

            self.total_frames = self.total_frames + 1;

            self.bottleneck_metrics.annotation_loads_per_frame = metrics.annotation_loads;
            self.bottleneck_metrics.entity_tree_walks_per_frame = metrics.entity_tree_walks;
            self.bottleneck_metrics.transform_invalidations_per_frame =
                metrics.transform_invalidations;
            self.bottleneck_metrics.blueprint_tree_rebuilds_per_frame =
                metrics.blueprint_tree_rebuilds;
            self.bottleneck_metrics.query_traversals_per_frame = metrics.query_traversals;

            self.cache_stats.query_cache_hits = metrics.query_cache_hits;
            self.cache_stats.query_cache_misses = metrics.query_cache_misses;
            self.cache_stats.transform_cache_hits = metrics.transform_cache_hits;
            self.cache_stats.transform_cache_misses = metrics.transform_cache_misses;
            self.cache_stats.blueprint_tree_cache_hits = metrics.blueprint_tree_cache_hits;
            self.cache_stats.blueprint_tree_cache_misses = metrics.blueprint_tree_cache_misses;
        }
    }

    /// The `pct`-th percentile of the recorded frame times.
    pub fn percentile(&self, pct: u64) -> (r: u64)
        requires
            pct <= 100,
        ensures
            r == spec_percentile(self.frame_times@, pct as int),
    {
        let n = self.frame_times.len();
        if n == 0 {
            return 0;
        }

        let mut sorted: Vec<u64> = Vec::new();
        proof {
            assert(self.frame_times@.take(0) =~= sorted@);
        }
        let mut i: usize = 0;
        while i < n
            invariant
                i <= n,
                n == self.frame_times@.len(),
                sorted_by(sorted@, u64_le()),
                sorted@.to_multiset() == self.frame_times@.take(i as int).to_multiset(),
            decreases n - i,
        {
            proof {
                broadcast use vstd::seq_lib::group_to_multiset_ensures;

                assert(self.frame_times@.take(i as int + 1) =~= self.frame_times@.take(
                    i as int,
                ).push(self.frame_times@[i as int]));
            }
            sorted_insert(&mut sorted, self.frame_times[i]);
            i = i + 1;
        }

        proof {
            broadcast use vstd::seq_lib::group_to_multiset_ensures;

            assert(self.frame_times@.take(n as int) =~= self.frame_times@);
            lemma_u64_le_total_ordering();
            self.frame_times@.lemma_sort_by_ensures(u64_le());
            lemma_sorted_unique(sorted@, self.frame_times@.sort_by(u64_le()), u64_le());
            assert(sorted@.len() == sorted@.to_multiset().len());
            assert(self.frame_times@.len() == self.frame_times@.to_multiset().len());
        }

        proof {
            vstd::arithmetic::mul::lemma_mul_inequality(pct as int, 100, n as int);
            vstd::arithmetic::div_mod::lemma_div_is_ordered(
                n as int * pct as int,
                n as int * 100,
                100,
            );
            vstd::arithmetic::div_mod::lemma_div_multiples_vanish(n as int, 100);
            assert(n as int * pct as int == pct as int * n as int) by {
                vstd::arithmetic::mul::lemma_mul_is_commutative(n as int, pct as int);
            }
        }
        let idx_wide: u128 = (n as u128) * (pct as u128) / 100;
        let idx: usize = idx_wide as usize;
        let last = n - 1;
        let i = if idx > last {
            last
        } else {
            idx
        };
        sorted[i]
    }

    /// Freezes the current percentiles as the baseline for comparison.
    pub fn set_baseline(&mut self)
        ensures
            *final(self) == (PerformancePanel {
                baseline: Some(
                    PerformanceBaseline {
                        p50: spec_percentile(old(self).frame_times@, 50),
                        p95: spec_percentile(old(self).frame_times@, 95),
                        p99: spec_percentile(old(self).frame_times@, 99),
                    },
                ),
                ..*old(self)
            }),
    {
        let p50 = self.percentile(50);
        let p95 = self.percentile(95);
        let p99 = self.percentile(99);
        self.baseline = Some(PerformanceBaseline { p50, p95, p99 });
    }

    /// Forgets the baseline.
    pub fn clear_baseline(&mut self)
        ensures
            *final(self) == (PerformancePanel { baseline: None, ..*old(self) }),
    {
        self.baseline = None;
    }

    /// Resets all collected statistics; the enabled/paused switches, phase
    /// timings, memory statistics and baseline are kept.
    pub fn reset(&mut self)
        ensures
            final(self).frame_times@ == Seq::<u64>::empty(),
            final(self).cache_stats == CacheStatistics::spec_zero(),
            final(self).bottleneck_metrics == BottleneckMetrics::spec_zero(),
            final(self).total_frames == 0,
            final(self).enabled == old(self).enabled,
            final(self).paused == old(self).paused,
            final(self).frame_start == old(self).frame_start,
            final(self).phase_timings == old(self).phase_timings,
            final(self).memory_stats == old(self).memory_stats,
            final(self).baseline == old(self).baseline,
    {
        self.frame_times.clear();
        self.cache_stats = CacheStatistics {
            query_cache_hits: 0,
            query_cache_misses: 0,
            transform_cache_hits: 0,
            transform_cache_misses: 0,
            blueprint_tree_cache_hits: 0,
            blueprint_tree_cache_misses: 0,
        };
        self.bottleneck_metrics = BottleneckMetrics {
            annotation_loads_per_frame: 0,
            entity_tree_walks_per_frame: 0,
            transform_invalidations_per_frame: 0,
            timelines_indexed_per_frame: 0,
            timelines_total: 0,
            blueprint_tree_rebuilds_per_frame: 0,
            query_traversals_per_frame: 0,
            system_overhead_us: 0,
            time_series_tessellation_count: 0,
        };
        self.total_frames = 0;
    }
}

impl PhaseTimings {
    /// All phases at zero.
    pub open spec fn spec_zero() -> Self {
        PhaseTimings {
            blueprint_query: 0,
            query_results: 0,
            update_overrides: 0,
            execute_systems: 0,
            ui_rendering: 0,
            gc: 0,
        }
    }
}

impl BottleneckMetrics {
    /// All counters at zero.
    pub open spec fn spec_zero() -> Self {
        BottleneckMetrics {
            annotation_loads_per_frame: 0,
            entity_tree_walks_per_frame: 0,
            transform_invalidations_per_frame: 0,
            timelines_indexed_per_frame: 0,
            timelines_total: 0,
            blueprint_tree_rebuilds_per_frame: 0,
            query_traversals_per_frame: 0,
            system_overhead_us: 0,
            time_series_tessellation_count: 0,
        }
    }
}

impl CacheStatistics {
    /// All counters at zero.
    pub open spec fn spec_zero() -> Self {
        CacheStatistics {
            query_cache_hits: 0,
            query_cache_misses: 0,
            transform_cache_hits: 0,
            transform_cache_misses: 0,
            blueprint_tree_cache_hits: 0,
            blueprint_tree_cache_misses: 0,
        }
    }
}

impl MemoryStatistics {
    /// No memory accounted.
    pub open spec fn spec_zero() -> Self {
        MemoryStatistics { rss_bytes: 0, counted_bytes: 0 }
    }
}

/// Inserts `x` into the sorted vector `v`, keeping it sorted.
fn sorted_insert(v: &mut Vec<u64>, x: u64)
    requires
        sorted_by(old(v)@, u64_le()),
    ensures
        sorted_by(final(v)@, u64_le()),
        final(v)@.to_multiset() == old(v)@.to_multiset().insert(x),
        final(v)@.len() == old(v)@.len() + 1,
{
    let mut k: usize = 0;
    while k < v.len() && v[k] <= x
        invariant
            k <= v@.len(),
            forall|i: int| 0 <= i < k as int ==> v@[i] <= x,
            v@ == old(v)@,
        decreases v@.len() - k,
    {
        k = k + 1;
    }
    proof {
        assert(k as int == v@.len() || v@[k as int] > x);
    }
    v.insert(k, x);
    proof {
        broadcast use vstd::seq_lib::group_to_multiset_ensures;

        let s = old(v)@;
        let t = v@;
        assert(t == s.insert(k as int, x));
        assert(t.remove(k as int) =~= s);
        assert(t.to_multiset().contains(x)) by {
            assert(t[k as int] == x);
        }
        assert(t.remove(k as int).to_multiset() =~= t.to_multiset().remove(x));
        assert(t.to_multiset() =~= s.to_multiset().insert(x));
        assert forall|i: int, j: int| 0 <= i < j < t.len() implies u64_le()(t[i], t[j]) by {
            let ki = k as int;
            if j < ki {
                assert(u64_le()(s[i], s[j]));
                assert(t[i] == s[i] && t[j] == s[j]);
            } else if i > ki {
                assert(u64_le()(s[i - 1], s[j - 1]));
                assert(t[i] == s[i - 1] && t[j] == s[j - 1]);
            } else if i == ki && j > ki {
                // t[i] is x; every element of s at or after position k is
                // above x, since the scan stopped there.
                assert(t[i] == x && t[j] == s[j - 1]);
                assert(ki <= j - 1 < s.len());
                assert(s[ki] > x);
                if ki < j - 1 {
                    assert(u64_le()(s[ki], s[j - 1]));
                }
                assert(x <= s[j - 1]);
            } else if i < ki && j == ki {
                assert(t[i] == s[i] && t[j] == x);
                assert(s[i] <= x);
            } else {
                // i < k < j
                assert(t[i] == s[i] && t[j] == s[j - 1]);
                assert(s[i] <= x);
                assert(ki <= j - 1 < s.len());
                assert(s[ki] > x);
                if ki < j - 1 {
                    assert(u64_le()(s[ki], s[j - 1]));
                }
                assert(x <= s[j - 1]);
            }
        }
    }
}

} // verus!

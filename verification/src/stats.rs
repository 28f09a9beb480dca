//! Running throughput statistics for an active source.

use vstd::prelude::*;

verus! {

/// An exact throughput value, kept as the unreduced fraction
/// `num / den` so that no precision is lost. A zero rate is
/// `0 / 1`.
#[derive(Clone, Copy, PartialEq, Eq, Structural, Debug)]
pub struct Rate {
    pub num: u128,
    pub den: u128,
}

impl Rate {
    /// The zero rate.
    pub open spec fn spec_zero() -> Rate {
        Rate { num: 0, den: 1 }
    }

    /// The zero rate.
    pub fn zero() -> (r: Rate)
        ensures
            r == Rate::spec_zero(),
    {
        Rate { num: 0, den: 1 }
    }

    /// Whether two fractions denote the same value, by cross
    /// multiplication.
    pub open spec fn same_value(self, other: Rate) -> bool {
        self.num * other.den == other.num * self.den
    }
}

/// Total number of events over a nested batch, given the per-batch
/// lengths.
pub open spec fn spec_batch_total(sizes: Seq<usize>) -> int
    decreases sizes.len(),
{
    if sizes.len() == 0 {
        0
    } else {
        spec_batch_total(sizes.drop_last()) + sizes.last()
    }
}

/// A prefix of a batch never holds more events than the whole batch.
proof fn lemma_batch_total_take_le(sizes: Seq<usize>, i: int)
    requires
        0 <= i <= sizes.len(),
    ensures
        spec_batch_total(sizes.take(i)) <= spec_batch_total(sizes),
    decreases sizes.len() - i,
{
    if i == sizes.len() {
        assert(sizes.take(i) =~= sizes);
    } else {
        lemma_batch_total_take_le(sizes, i + 1);
        assert(sizes.take(i + 1).drop_last() =~= sizes.take(i));
    }
}

/// Extending a prefix by one batch adds that batch's length to the
/// running total.
proof fn lemma_batch_total_take_step(sizes: Seq<usize>, i: int)
    requires
        0 <= i < sizes.len(),
    ensures
        spec_batch_total(sizes.take(i + 1)) == spec_batch_total(sizes.take(i)) + sizes[i],
{
    assert(sizes.take(i + 1).drop_last() =~= sizes.take(i));
}

/// Cumulative throughput counters for the active source: total event
/// count, events per source second, and events per pixel channel
/// (total and per second).
///
/// The counters are reset on every rebuild or loop restart and grow
/// monotonically otherwise.
#[derive(Clone, Copy, PartialEq, Eq, Structural, Debug)]
pub struct RunningStatistics {
    /// Cumulative number of events consumed since the last reset.
    pub events_total: u64,
    /// Events per second of source time.
    pub events_per_sec: Rate,
    /// Events per pixel channel since the last reset.
    pub events_ppc_total: Rate,
    /// Events per pixel channel per second of source time.
    pub events_ppc_per_sec: Rate,
}

impl RunningStatistics {
    /// The state every reset returns to: all counters zero.
    pub open spec fn spec_initial() -> RunningStatistics {
        RunningStatistics {
            events_total: 0,
            events_per_sec: Rate::spec_zero(),
            events_ppc_total: Rate::spec_zero(),
            events_ppc_per_sec: Rate::spec_zero(),
        }
    }

    /// Fresh statistics with all counters zero.
    pub fn new() -> (r: RunningStatistics)
        ensures
            r == RunningStatistics::spec_initial(),
    {
        RunningStatistics {
            events_total: 0,
            events_per_sec: Rate::zero(),
            events_ppc_total: Rate::zero(),
            events_ppc_per_sec: Rate::zero(),
        }
    }

    /// Clears every counter.
    pub fn reset(&mut self)
        ensures
            *final(self) == RunningStatistics::spec_initial(),
    {
        *self = RunningStatistics::new();
    }

    /// The statistics after one consumption cycle that produced a
    /// nested batch with the given per-batch lengths, on a source with
    /// tick rate `tps`, reference time `ref_time` and raster dimensions
    /// `width x height x channels`:
    /// the batch total is added to the cumulative count, and the rates
    /// follow the source's own clock, `batch * tps / ref_time` events
    /// per source second.
    pub open spec fn spec_record_batch(
        self,
        sizes: Seq<usize>,
        tps: u32,
        ref_time: u32,
        width: u16,
        height: u16,
        channels: u8,
    ) -> RunningStatistics {
        let n = spec_batch_total(sizes);
        let total = self.events_total + n;
        let ppc_den = (width as int) * (height as int) * (channels as int);
        RunningStatistics {
            events_total: total as u64,
            events_per_sec: Rate { num: (n * tps) as u128, den: ref_time as u128 },
            events_ppc_total: Rate { num: total as u128, den: ppc_den as u128 },
            events_ppc_per_sec: Rate {
                num: (n * tps) as u128,
                den: (ref_time * ppc_den) as u128,
            },
        }
    }

    /// Records one consumption cycle of the transcode direction.
    pub fn record_batch(
        &mut self,
        sizes: &Vec<usize>,
        tps: u32,
        ref_time: u32,
        width: u16,
        height: u16,
        channels: u8,
    )
        requires
            ref_time >= 1,
            width >= 1,
            height >= 1,
            channels >= 1,
            old(self).events_total + spec_batch_total(sizes@) <= u64::MAX,
        ensures
            *final(self) == old(self).spec_record_batch(
                sizes@,
                tps,
                ref_time,
                width,
                height,
                channels,
            ),
    {
        let mut n: u64 = 0;
        let mut i: usize = 0;
        proof {
            assert(sizes@.take(0) =~= Seq::<usize>::empty());
        }
        while i < sizes.len()
            invariant
                0 <= i <= sizes@.len(),
                n == spec_batch_total(sizes@.take(i as int)),
                self == old(self),
                old(self).events_total + spec_batch_total(sizes@) <= u64::MAX,
            decreases sizes@.len() - i,
        {
            proof {
                lemma_batch_total_take_step(sizes@, i as int);
                lemma_batch_total_take_le(sizes@, i + 1);
            }
            n = n + sizes[i] as u64;
            i = i + 1;
        }
        proof {
            assert(sizes@.take(sizes@.len() as int) =~= sizes@);
        }
        let total: u64 = self.events_total + n;
        proof {
            assert((n as int) * (tps as int) <= 0xFFFF_FFFF_FFFF_FFFF * 0xFFFF_FFFF)
                by (nonlinear_arith)
                requires
                    n <= 0xFFFF_FFFF_FFFF_FFFFu64,
                    tps <= 0xFFFF_FFFFu32,
            ;
        }
        let per_sec_num: u128 = (n as u128) * (tps as u128);
        proof {
            assert(1 <= (width as int) * (height as int) < 0x1_0000_0000) by (nonlinear_arith)
                requires
                    1 <= width <= 0xFFFFu16,
                    1 <= height <= 0xFFFFu16,
            ;
            assert(1 <= (width as int) * (height as int) * (channels as int)
                < 0x1_0000_0000_0000) by (nonlinear_arith)
                requires
                    1 <= (width as int) * (height as int) < 0x1_0000_0000,
                    1 <= channels <= 0xFFu8,
            ;
        }
        let ppc_den: u128 = (width as u128) * (height as u128) * (channels as u128);
        proof {
            assert((ref_time as int) * (ppc_den as int)
                < 0x1_0000_0000 * 0x1_0000_0000_0000) by (nonlinear_arith)
                requires
                    ref_time <= 0xFFFF_FFFFu32,
                    1 <= ppc_den < 0x1_0000_0000_0000,
            ;
        }
        let ppc_per_sec_den: u128 = (ref_time as u128) * ppc_den;
        self.events_total = total;
        self.events_per_sec = Rate { num: per_sec_num, den: ref_time as u128 };
        self.events_ppc_total = Rate { num: total as u128, den: ppc_den };
        self.events_ppc_per_sec = Rate { num: per_sec_num, den: ppc_per_sec_den };
    }

    /// Counts one more consumed event, leaving the rates to the next
    /// refresh.
    pub fn record_event(&mut self)
        requires
            old(self).events_total < u64::MAX,
        ensures
            final(self).events_total == old(self).events_total + 1,
            final(self).events_per_sec == old(self).events_per_sec,
            final(self).events_ppc_total == old(self).events_ppc_total,
            final(self).events_ppc_per_sec == old(self).events_ppc_per_sec,
    {
        self.events_total = self.events_total + 1;
    }

    /// The statistics after a playback cycle recomputes its rates from
    /// the cumulative count and the elapsed source time: `ticks / tps`
    /// whole seconds have passed on the source's own clock. While less
    /// than one whole second has elapsed the per-second rates stay
    /// zero.
    pub open spec fn spec_refresh_playback(
        self,
        ticks: u64,
        tps: u32,
        width: u16,
        height: u16,
        channels: u8,
    ) -> RunningStatistics {
        let secs = ticks as int / tps as int;
        let ppc_den = (width as int) * (height as int) * (channels as int);
        RunningStatistics {
            events_total: self.events_total,
            events_per_sec: if secs == 0 {
                Rate::spec_zero()
            } else {
                Rate { num: self.events_total as u128, den: secs as u128 }
            },
            events_ppc_total: Rate { num: self.events_total as u128, den: ppc_den as u128 },
            events_ppc_per_sec: if secs == 0 {
                Rate::spec_zero()
            } else {
                Rate { num: self.events_total as u128, den: (secs * ppc_den) as u128 }
            },
        }
    }

    /// Recomputes the rates of the playback direction from the
    /// cumulative count and the current tick counter.
    pub fn refresh_playback(&mut self, ticks: u64, tps: u32, width: u16, height: u16, channels: u8)
        requires
            tps >= 1,
            width >= 1,
            height >= 1,
            channels >= 1,
        ensures
            *final(self) == old(self).spec_refresh_playback(ticks, tps, width, height, channels),
    {
        let secs: u64 = ticks / (tps as u64);
        proof {
            assert(1 <= (width as int) * (height as int) < 0x1_0000_0000) by (nonlinear_arith)
                requires
                    1 <= width <= 0xFFFFu16,
                    1 <= height <= 0xFFFFu16,
            ;
            assert(1 <= (width as int) * (height as int) * (channels as int)
                < 0x1_0000_0000_0000) by (nonlinear_arith)
                requires
                    1 <= (width as int) * (height as int) < 0x1_0000_0000,
                    1 <= channels <= 0xFFu8,
            ;
        }
        let ppc_den: u128 = (width as u128) * (height as u128) * (channels as u128);
        self.events_ppc_total = Rate { num: self.events_total as u128, den: ppc_den };
        if secs == 0 {
            self.events_per_sec = Rate::zero();
            self.events_ppc_per_sec = Rate::zero();
        } else {
            proof {
                assert((secs as int) * (ppc_den as int)
                    < 0x1_0000_0000_0000_0000 * 0x1_0000_0000_0000) by (nonlinear_arith)
                    requires
                        secs <= 0xFFFF_FFFF_FFFF_FFFFu64,
                        1 <= ppc_den < 0x1_0000_0000_0000,
                ;
            }
            self.events_per_sec = Rate { num: self.events_total as u128, den: secs as u128 };
            self.events_ppc_per_sec = Rate {
                num: self.events_total as u128,
                den: (secs as u128) * ppc_den,
            };
        }
    }
}

/// Throughput scaling law: one recorded batch of `N` events on a
/// source with tick rate `T` and reference time `R` yields an
/// events-per-second rate whose value is exactly `N * T / R`, that is,
/// the fraction `N * T` over `R`.
pub proof fn lemma_throughput_scaling(
    stats: RunningStatistics,
    sizes: Seq<usize>,
    tps: u32,
    ref_time: u32,
    width: u16,
    height: u16,
    channels: u8,
)
    requires
        ref_time >= 1,
        stats.events_total + spec_batch_total(sizes) <= u64::MAX,
    ensures
        ({
            let r = stats.spec_record_batch(sizes, tps, ref_time, width, height, channels);
            &&& r.events_per_sec.num == spec_batch_total(sizes) * tps
            &&& r.events_per_sec.den == ref_time
            &&& r.events_per_sec.same_value(
                Rate { num: (spec_batch_total(sizes) * tps) as u128, den: ref_time as u128 },
            )
        }),
{
    lemma_batch_total_nonneg(sizes);
    let n = spec_batch_total(sizes);
    assert(n * tps <= 0xFFFF_FFFF_FFFF_FFFF * 0xFFFF_FFFF) by (nonlinear_arith)
        requires
            0 <= n <= 0xFFFF_FFFF_FFFF_FFFF,
            tps <= 0xFFFF_FFFFu32,
    ;
}

/// A batch total is never negative.
pub proof fn lemma_batch_total_nonneg(sizes: Seq<usize>)
    ensures
        spec_batch_total(sizes) >= 0,
    decreases sizes.len(),
{
    if sizes.len() > 0 {
        lemma_batch_total_nonneg(sizes.drop_last());
    }
}

} // verus!

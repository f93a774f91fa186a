use vstd::prelude::*;

use crate::stats::{exponential_moving_average_of, push_evicting, CircularBuffer};
use crate::utils::{ScalingFactor, SCALE_ONE};

verus! {

/// Number of samples kept per metric.
pub const SAMPLE_COUNT: usize = 8;

/// Decay of the smoothing weight per sample, in thousandths: 0.631^5 is about
/// 0.1, so 90% of the weight is on the last 5 samples.
pub const EXPONENTIAL_DECAY_ALPHA_MILLI: u32 = 631;

/// Derived values are fixed point, in thousandths of their unit
/// (a percent, a megabyte per second, a megabit per second).
pub const MILLI: u64 = 1000;

/// Cumulative CPU times since boot, in 100 ns units.
#[derive(Copy, Clone, Debug, PartialEq, Eq, Structural)]
pub struct CpuTimes {
    pub idle: u64,
    /// Kernel time, which includes idle time.
    pub kernel_plus_idle: u64,
    pub user: u64,
}

/// Physical memory at one instant, in bytes.
#[derive(Copy, Clone, Debug, PartialEq, Eq, Structural)]
pub struct MemoryStatus {
    pub total_phys: u64,
    pub avail_phys: u64,
}

/// Cumulative bytes read and written by the file system.
#[derive(Copy, Clone, Debug, PartialEq, Eq, Structural)]
pub struct DiskBytes {
    pub read: u64,
    pub written: u64,
}

/// One row of the network interface table.
#[derive(Copy, Clone, Debug, PartialEq, Eq, Structural)]
pub struct InterfaceRow {
    /// Hardware address, packed into an integer.
    pub phys_addr: u64,
    pub in_octets: u32,
    pub out_octets: u32,
}

/// A byte counter read at a time in microseconds.
#[derive(Copy, Clone, Debug, PartialEq, Eq, Structural)]
pub struct CounterReading {
    pub count: u64,
    pub time_us: u64,
}

/// The unit a throughput is reported in.
#[derive(Copy, Clone, Debug, PartialEq, Eq, Structural)]
pub enum RateUnit {
    /// Mebibytes (2^20 bytes) per second.
    MegabytesPerSecond,
    /// Megabits (10^6 bits) per second.
    MegabitsPerSecond,
}

/// Thousandths of the unit per byte-per-microsecond, as a fraction.
pub open spec fn unit_numer(unit: RateUnit) -> int {
    match unit {
        RateUnit::MegabytesPerSecond => 1_000_000_000,
        RateUnit::MegabitsPerSecond => 8000,
    }
}

pub open spec fn unit_denom(unit: RateUnit) -> int {
    match unit {
        RateUnit::MegabytesPerSecond => 1_048_576,
        RateUnit::MegabitsPerSecond => 1,
    }
}

/// `cur - prev` modulo 2^64: the growth of a counter that may wrap.
pub open spec fn wrapping_delta(prev: u64, cur: u64) -> int {
    if cur >= prev {
        cur - prev
    } else {
        cur + 0x1_0000_0000_0000_0000 - prev
    }
}

pub open spec fn saturate_u64(x: int) -> int {
    if x > u64::MAX {
        u64::MAX as int
    } else {
        x
    }
}

/// Busy share of CPU time between two readings, in thousandths of a percent.
/// No elapsed CPU time gives zero.
pub open spec fn cpu_milli_percent(prev: CpuTimes, cur: CpuTimes) -> int {
    let idle = wrapping_delta(prev.idle, cur.idle);
    let total = wrapping_delta(prev.kernel_plus_idle, cur.kernel_plus_idle) + wrapping_delta(
        prev.user,
        cur.user,
    );
    if total == 0 {
        0
    } else if idle >= total {
        0
    } else {
        (total - idle) * (100 * MILLI) / total
    }
}

/// Share of physical memory in use, in thousandths of a percent.
pub open spec fn memory_milli_percent(m: MemoryStatus) -> int {
    if m.total_phys == 0 || m.avail_phys >= m.total_phys {
        0
    } else {
        (m.total_phys - m.avail_phys) * (100 * MILLI) / (m.total_phys as int)
    }
}

/// `delta` bytes over `elapsed_us` microseconds, in thousandths of `unit`,
/// rounded down and capped at `u64::MAX`; zero when no time has passed.
pub open spec fn throughput(delta: int, elapsed_us: int, unit: RateUnit) -> int {
    if elapsed_us <= 0 {
        0
    } else {
        saturate_u64(delta * unit_numer(unit) / (unit_denom(unit) * elapsed_us))
    }
}

/// Throughput of a counter between its previous reading, if any, and `cur`.
/// The first reading gives zero.
pub open spec fn counter_throughput(prev: Option<CounterReading>, cur: CounterReading, unit: RateUnit) -> int {
    match prev {
        None => 0,
        Some(p) => throughput(wrapping_delta(p.count, cur.count), cur.time_us - p.time_us, unit),
    }
}

/// Throughput of the disk between its previous reading, if any, and `cur`.
pub open spec fn disk_throughput(prev: Option<(DiskBytes, u64)>, cur: DiskBytes, time_us: u64) -> int {
    match prev {
        None => 0,
        Some((p, t)) => throughput(
            wrapping_delta(p.read, cur.read) + wrapping_delta(p.written, cur.written),
            time_us - t,
            RateUnit::MegabytesPerSecond,
        ),
    }
}

/// Whether an earlier row than `i` has the same hardware address.
pub open spec fn address_seen_before(rows: Seq<InterfaceRow>, i: int) -> bool {
    exists|j: int| 0 <= j < i && rows[j].phys_addr == rows[i].phys_addr
}

/// Octets of the rows, each hardware address counted once, by its first row.
pub open spec fn distinct_octets(rows: Seq<InterfaceRow>) -> int
    decreases rows.len(),
{
    if rows.len() == 0 {
        0
    } else {
        let i = rows.len() - 1;
        distinct_octets(rows.drop_last()) + if address_seen_before(rows, i) {
            0
        } else {
            rows[i].in_octets + rows[i].out_octets
        }
    }
}

/// Wrapping difference of two counter values.
fn delta_of(prev: u64, cur: u64) -> (r: u64)
    ensures
        r == wrapping_delta(prev, cur),
{
    if cur >= prev {
        cur - prev
    } else {
        (u64::MAX - prev) + cur + 1
    }
}

/// A counter delta turned into a throughput; see `throughput`.
fn rate_of(delta: u128, elapsed_us: u64, unit: RateUnit) -> (r: u64)
    requires
        delta <= 2 * 0xffff_ffff_ffff_ffffu128,
    ensures
        r == throughput(delta as int, elapsed_us as int, unit),
{
    if elapsed_us == 0 {
        return 0;
    }
    let (numer, denom): (u128, u128) = match unit {
        RateUnit::MegabytesPerSecond => (1_000_000_000, 1_048_576),
        RateUnit::MegabitsPerSecond => (8000, 1),
    };
    proof {
        assert(delta * numer <= 2 * 0xffff_ffff_ffff_ffffu128 * 1_000_000_000) by (nonlinear_arith)
            requires delta <= 2 * 0xffff_ffff_ffff_ffffu128, numer <= 1_000_000_000;
        assert(denom * elapsed_us <= 1_048_576 * 0xffff_ffff_ffff_ffffu128) by (nonlinear_arith)
            requires denom <= 1_048_576, elapsed_us <= 0xffff_ffff_ffff_ffffu64;
        assert(denom * elapsed_us > 0) by (nonlinear_arith)
            requires denom >= 1, elapsed_us >= 1;
    }
    let q: u128 = (delta * numer) / (denom * elapsed_us as u128);
    if q > u64::MAX as u128 {
        u64::MAX
    } else {
        q as u64
    }
}

/// Busy CPU share between two readings; see `cpu_milli_percent`.
pub fn cpu_percent_between(prev: CpuTimes, cur: CpuTimes) -> (r: u64)
    ensures
        r == cpu_milli_percent(prev, cur),
        r <= 100 * MILLI,
{
    let idle = delta_of(prev.idle, cur.idle) as u128;
    let total = delta_of(prev.kernel_plus_idle, cur.kernel_plus_idle) as u128 + delta_of(
        prev.user,
        cur.user,
    ) as u128;
    if total == 0 || idle >= total {
        0
    } else {
        let busy = total - idle;
        proof {
            assert(busy * 100_000 <= total * 100_000) by (nonlinear_arith)
                requires busy <= total;
            assert((busy as int) * 100_000 / (total as int) <= 100_000) by (nonlinear_arith)
                requires busy * 100_000 <= total * 100_000, total > 0;
        }
        ((busy * 100_000) / total) as u64
    }
}

/// Share of physical memory in use; see `memory_milli_percent`.
pub fn memory_percent_of(m: MemoryStatus) -> (r: u64)
    ensures
        r == memory_milli_percent(m),
        r <= 100 * MILLI,
{
    if m.total_phys == 0 || m.avail_phys >= m.total_phys {
        0
    } else {
        let used = (m.total_phys - m.avail_phys) as u128;
        let total = m.total_phys as u128;
        proof {
            assert(used * 100_000 <= total * 100_000) by (nonlinear_arith)
                requires used <= total;
            assert((used as int) * 100_000 / (total as int) <= 100_000) by (nonlinear_arith)
                requires used * 100_000 <= total * 100_000, total > 0;
        }
        ((used * 100_000) / total) as u64
    }
}

/// Total octets over the interface table, counting each hardware address
/// once (one adapter may be listed under several virtual names), modulo 2^64.
pub fn total_network_bytes(rows: &Vec<InterfaceRow>) -> (r: u64)
    ensures
        r == distinct_octets(rows@) % 0x1_0000_0000_0000_0000,
{
    let mut total: u128 = 0;
    let mut i: usize = 0;
    while i < rows.len()
        invariant
            i <= rows@.len(),
            total == distinct_octets(rows@.subrange(0, i as int)),
            total <= i * 0x2_0000_0000,
        decreases rows@.len() - i,
    {
        let row = rows[i];
        let mut seen = false;
        let mut j: usize = 0;
        while j < i
            invariant
                i < rows@.len(),
                j <= i,
                row == rows@[i as int],
                seen <==> exists|k: int| 0 <= k < j && rows@[k].phys_addr == row.phys_addr,
            decreases i - j,
        {
            if rows[j].phys_addr == row.phys_addr {
                seen = true;
            }
            j = j + 1;
        }
        proof {
            let pre = rows@.subrange(0, i as int + 1);
            assert(pre.drop_last() =~= rows@.subrange(0, i as int));
            assert(pre[i as int] == row);
            assert(address_seen_before(pre, i as int) <==> seen) by {
                if seen {
                    let k = choose|k: int| 0 <= k < i && rows@[k].phys_addr == row.phys_addr;
                    assert(pre[k] == rows@[k]);
                }
                if address_seen_before(pre, i as int) {
                    let k = choose|k: int| 0 <= k < i && pre[k].phys_addr == pre[i as int].phys_addr;
                    assert(pre[k] == rows@[k]);
                }
            }
            assert(total + 0x2_0000_0000 <= (i + 1) * 0x2_0000_0000) by (nonlinear_arith)
                requires total <= i * 0x2_0000_0000;
        }
        if !seen {
            total = total + row.in_octets as u128 + row.out_octets as u128;
        }
        i = i + 1;
    }
    assert(rows@.subrange(0, rows@.len() as int) =~= rows@);
    (total % 0x1_0000_0000_0000_0000u128) as u64
}

/// Previous counter state of each metric and the smoothed sample history.
pub struct Metrics {
    prev_cpu: Option<CpuTimes>,
    prev_disk: Option<(DiskBytes, u64)>,
    prev_network: Option<CounterReading>,
    cpu_percent: CircularBuffer<u64, SAMPLE_COUNT>,
    memory_percent: CircularBuffer<u64, SAMPLE_COUNT>,
    disk_mbyte: CircularBuffer<u64, SAMPLE_COUNT>,
    network_mbit: CircularBuffer<u64, SAMPLE_COUNT>,
}

/// What was read from the counter sources on one tick; `None` where a read failed.
pub struct Sample {
    /// Monotonic time of the tick, in microseconds.
    pub time_us: u64,
    pub cpu: Option<CpuTimes>,
    pub memory: Option<MemoryStatus>,
    pub disk: Option<DiskBytes>,
    pub network: Option<Vec<InterfaceRow>>,
}

/// The spec-level contents of a `Sample`'s network rows.
pub open spec fn network_rows(s: &Sample) -> Option<Seq<InterfaceRow>> {
    match &s.network {
        None => None,
        Some(rows) => Some(rows@),
    }
}

/// A buffer after an optional push.
pub open spec fn pushed_if(held: Seq<u64>, value: Option<int>) -> Seq<u64> {
    match value {
        None => held,
        Some(v) => push_evicting(held, v as u64, SAMPLE_COUNT as nat),
    }
}

/// The smoothing factor of the averages.
pub open spec fn alpha_spec() -> int {
    (SCALE_ONE as int) * (EXPONENTIAL_DECAY_ALPHA_MILLI as int) / 1000
}

/// The sampler `post` is `pre` after a fetch of `sample`: each metric that was
/// read derives its value from its own previous reading and pushes it; each
/// metric whose read failed keeps its history and previous reading.
pub open spec fn fetched(pre: &Metrics, sample: &Sample, post: &Metrics) -> bool {
    &&& post.wf()
    &&& post.cpu_samples() == pushed_if(
        pre.cpu_samples(),
        match sample.cpu {
            None => None,
            Some(c) => Some(
                match pre.prev_cpu() {
                    None => 0,
                    Some(p) => cpu_milli_percent(p, c),
                },
            ),
        },
    )
    &&& post.prev_cpu() == (match sample.cpu {
        None => pre.prev_cpu(),
        Some(c) => Some(c),
    })
    &&& post.memory_samples() == pushed_if(
        pre.memory_samples(),
        match sample.memory {
            None => None,
            Some(m) => Some(memory_milli_percent(m)),
        },
    )
    &&& post.disk_samples() == pushed_if(
        pre.disk_samples(),
        match sample.disk {
            None => None,
            Some(d) => Some(disk_throughput(pre.prev_disk(), d, sample.time_us)),
        },
    )
    &&& post.prev_disk() == (match sample.disk {
        None => pre.prev_disk(),
        Some(d) => Some((d, sample.time_us)),
    })
    &&& post.network_samples() == pushed_if(
        pre.network_samples(),
        match network_rows(sample) {
            None => None,
            Some(rows) => Some(
                counter_throughput(
                    pre.prev_network(),
                    CounterReading {
                        count: (distinct_octets(rows) % 0x1_0000_0000_0000_0000) as u64,
                        time_us: sample.time_us,
                    },
                    RateUnit::MegabitsPerSecond,
                ),
            ),
        },
    )
    &&& post.prev_network() == (match network_rows(sample) {
        None => pre.prev_network(),
        Some(rows) => Some(
            CounterReading {
                count: (distinct_octets(rows) % 0x1_0000_0000_0000_0000) as u64,
                time_us: sample.time_us,
            },
        ),
    })
}

impl Metrics {
    pub closed spec fn wf(&self) -> bool {
        &&& self.cpu_percent.wf()
        &&& self.memory_percent.wf()
        &&& self.disk_mbyte.wf()
        &&& self.network_mbit.wf()
    }

    pub closed spec fn prev_cpu(&self) -> Option<CpuTimes> {
        self.prev_cpu
    }

    pub closed spec fn prev_disk(&self) -> Option<(DiskBytes, u64)> {
        self.prev_disk
    }

    pub closed spec fn prev_network(&self) -> Option<CounterReading> {
        self.prev_network
    }

    pub closed spec fn cpu_samples(&self) -> Seq<u64> {
        self.cpu_percent@
    }

    pub closed spec fn memory_samples(&self) -> Seq<u64> {
        self.memory_percent@
    }

    pub closed spec fn disk_samples(&self) -> Seq<u64> {
        self.disk_mbyte@
    }

    pub closed spec fn network_samples(&self) -> Seq<u64> {
        self.network_mbit@
    }

    /// No previous readings and no samples.
    pub open spec fn fresh(&self) -> bool {
        &&& self.prev_cpu() == None::<CpuTimes>
        &&& self.prev_disk() == None::<(DiskBytes, u64)>
        &&& self.prev_network() == None::<CounterReading>
        &&& self.cpu_samples() == Seq::<u64>::empty()
        &&& self.memory_samples() == Seq::<u64>::empty()
        &&& self.disk_samples() == Seq::<u64>::empty()
        &&& self.network_samples() == Seq::<u64>::empty()
    }

    /// A sampler that has fetched nothing yet.
    pub fn new() -> (r: Metrics)
        ensures
            r.wf(),
            r.fresh(),
    {
        Metrics {
            prev_cpu: None,
            prev_disk: None,
            prev_network: None,
            cpu_percent: CircularBuffer::new(),
            memory_percent: CircularBuffer::new(),
            disk_mbyte: CircularBuffer::new(),
            network_mbit: CircularBuffer::new(),
        }
    }

    /// Derives one value per metric from `sample` and pushes it into that
    /// metric's history. A metric whose read failed gets no sample this tick
    /// and keeps its previous reading; the others are unaffected. A metric's
    /// first reading derives zero.
    pub fn fetch(&mut self, sample: Sample)
        requires
            old(self).wf(),
        ensures
            fetched(old(self), &sample, final(self)),
    {
        if let Some(cur) = sample.cpu {
            let value = match self.prev_cpu {
                None => 0,
                Some(prev) => cpu_percent_between(prev, cur),
            };
            self.cpu_percent.push(value);
            self.prev_cpu = Some(cur);
        }
        if let Some(m) = sample.memory {
            self.memory_percent.push(memory_percent_of(m));
        }
        if let Some(cur) = sample.disk {
            let value = match self.prev_disk {
                None => 0,
                Some((prev, t)) => {
                    let delta = delta_of(prev.read, cur.read) as u128 + delta_of(
                        prev.written,
                        cur.written,
                    ) as u128;
                    let elapsed: u64 = if sample.time_us > t { sample.time_us - t } else { 0 };
                    rate_of(delta, elapsed, RateUnit::MegabytesPerSecond)
                },
            };
            self.disk_mbyte.push(value);
            self.prev_disk = Some((cur, sample.time_us));
        }
        if let Some(rows) = &sample.network {
            let cur = CounterReading { count: total_network_bytes(rows), time_us: sample.time_us };
            let value = network_rate(self.prev_network, cur);
            self.network_mbit.push(value);
            self.prev_network = Some(cur);
        }
    }

    /// Smoothed CPU busy share, in thousandths of a percent.
    pub fn avg_cpu_percent(&self) -> (r: u64)
        requires
            self.wf(),
        ensures
            r == exponential_moving_average_of(self.cpu_samples(), alpha_spec()),
    {
        self.cpu_percent.exponential_moving_average(decay_alpha())
    }

    /// Smoothed memory use, in thousandths of a percent.
    pub fn avg_memory_percent(&self) -> (r: u64)
        requires
            self.wf(),
        ensures
            r == exponential_moving_average_of(self.memory_samples(), alpha_spec()),
    {
        self.memory_percent.exponential_moving_average(decay_alpha())
    }

    /// Smoothed disk throughput, in thousandths of a mebibyte per second.
    pub fn avg_disk_mbyte(&self) -> (r: u64)
        requires
            self.wf(),
        ensures
            r == exponential_moving_average_of(self.disk_samples(), alpha_spec()),
    {
        self.disk_mbyte.exponential_moving_average(decay_alpha())
    }

    /// Smoothed network throughput, in thousandths of a megabit per second.
    pub fn avg_network_mbit(&self) -> (r: u64)
        requires
            self.wf(),
        ensures
            r == exponential_moving_average_of(self.network_samples(), alpha_spec()),
    {
        self.network_mbit.exponential_moving_average(decay_alpha())
    }
}

fn decay_alpha() -> (r: ScalingFactor)
    ensures
        r@ == alpha_spec(),
        0 < r@ <= SCALE_ONE,
{
    ScalingFactor::from_ratio(EXPONENTIAL_DECAY_ALPHA_MILLI, 1000)
}

/// Network throughput from the previous reading, if any, to `cur`.
pub fn network_rate(prev: Option<CounterReading>, cur: CounterReading) -> (r: u64)
    ensures
        r == counter_throughput(prev, cur, RateUnit::MegabitsPerSecond),
{
    match prev {
        None => 0,
        Some(p) => {
            let elapsed: u64 = if cur.time_us > p.time_us { cur.time_us - p.time_us } else { 0 };
            rate_of(delta_of(p.count, cur.count) as u128, elapsed, RateUnit::MegabitsPerSecond)
        },
    }
}

/// On a counter's first reading there is no delta yet: whatever the absolute
/// counter values, the derived CPU share and throughputs are zero.
pub proof fn lemma_first_reading_is_zero(cpu: CpuTimes, disk: DiskBytes, network: CounterReading, time_us: u64)
    ensures
        counter_throughput(None, network, RateUnit::MegabitsPerSecond) == 0,
        counter_throughput(None, network, RateUnit::MegabytesPerSecond) == 0,
        disk_throughput(None, disk, time_us) == 0,
{
}

/// Between two readings `(b0, t0)` and `(b1, t1)` of a counter that grew
/// without wrapping, the throughput is `(b1 - b0)` bytes converted to the unit
/// and divided by `t1 - t0`, rounded down and capped at `u64::MAX`.
pub proof fn lemma_throughput_formula(prev: CounterReading, cur: CounterReading, unit: RateUnit)
    requires
        prev.count <= cur.count,
        prev.time_us < cur.time_us,
    ensures
        counter_throughput(Some(prev), cur, unit) == saturate_u64(
            (cur.count - prev.count) * unit_numer(unit) / (unit_denom(unit) * (cur.time_us - prev.time_us)),
        ),
{
}

/// When a counter wraps between two readings (it went down), the delta is
/// taken modulo 2^64: it is still positive, and the throughput is never negative.
pub proof fn lemma_wrapped_counter(prev: CounterReading, cur: CounterReading, unit: RateUnit)
    requires
        cur.count < prev.count,
    ensures
        wrapping_delta(prev.count, cur.count) == cur.count + 0x1_0000_0000_0000_0000 - prev.count,
        wrapping_delta(prev.count, cur.count) > 0,
        0 <= counter_throughput(Some(prev), cur, unit) <= u64::MAX,
{
    let delta = wrapping_delta(prev.count, cur.count);
    if cur.time_us > prev.time_us {
        let d = unit_denom(unit) * (cur.time_us - prev.time_us);
        assert(d > 0) by (nonlinear_arith)
            requires unit_denom(unit) >= 1, cur.time_us - prev.time_us >= 1, d == unit_denom(unit) * (cur.time_us - prev.time_us);
        assert(delta * unit_numer(unit) >= 0) by (nonlinear_arith)
            requires delta > 0, unit_numer(unit) > 0;
        assert(delta * unit_numer(unit) / d >= 0) by (nonlinear_arith)
            requires delta * unit_numer(unit) >= 0, d > 0;
    }
}

/// Each throughput depends on its own counter's reading and previous reading
/// only: what the other metrics read in the same tick, or whether their reads
/// failed, does not change it, so the order of the reads within a tick does
/// not matter.
pub proof fn lemma_metrics_independent(
    pre1: &Metrics,
    sample1: &Sample,
    post1: &Metrics,
    pre2: &Metrics,
    sample2: &Sample,
    post2: &Metrics,
)
    requires
        fetched(pre1, sample1, post1),
        fetched(pre2, sample2, post2),
        sample1.time_us == sample2.time_us,
    ensures
        pre1.prev_network() == pre2.prev_network() && pre1.network_samples() == pre2.network_samples()
            && network_rows(sample1) == network_rows(sample2) ==> post1.prev_network()
            == post2.prev_network() && post1.network_samples() == post2.network_samples(),
        pre1.prev_disk() == pre2.prev_disk() && pre1.disk_samples() == pre2.disk_samples()
            && sample1.disk == sample2.disk ==> post1.prev_disk() == post2.prev_disk()
            && post1.disk_samples() == post2.disk_samples(),
        pre1.prev_cpu() == pre2.prev_cpu() && pre1.cpu_samples() == pre2.cpu_samples()
            && sample1.cpu == sample2.cpu ==> post1.prev_cpu() == post2.prev_cpu()
            && post1.cpu_samples() == post2.cpu_samples(),
{
}

} // verus!

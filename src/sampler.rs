//! The metrics sampler: what is measured for each gauge, and the exact
//! reading that a measurement gives.

use vstd::prelude::*;

use crate::config::{mbps_of, Gauge, NetworkSpeed};

verus! {

/// What the metrics provider reports for one gauge.
#[derive(Clone, Copy, PartialEq, Eq, Structural, Debug)]
pub enum Measure {
    /// Nothing to read: the kind has no backing sampler, or the core or
    /// interface is absent.
    Missing,
    /// A value that the provider hands out as an `f32`, by its bit pattern.
    Reported(u32),
    /// A whole quantity, such as a frequency in MHz.
    Count(u64),
    /// A part of a whole, such as used and total memory in bytes.
    Fraction { used: u64, total: u64 },
    /// Bytes received and transmitted on an interface since the last
    /// refresh.
    Traffic { received: u64, transmitted: u64 },
}

/// The value of one gauge for one tick.
#[derive(Clone, Copy, PartialEq, Eq, Structural, Debug)]
pub enum Reading {
    /// An `f32` as the provider reported it, by its bit pattern.
    Reported(u32),
    /// The exact value `num / den`.
    Quotient { num: u128, den: u128 },
}

/// The reading of a gauge that has nothing to report.
pub open spec fn zero() -> Reading {
    Reading::Quotient { num: 0, den: 1 }
}

/// A reading that is a percentage between 0 and 100, bounds included.
pub open spec fn is_percentage(r: Reading) -> bool {
    r matches Reading::Quotient { num, den } && den > 0 && num <= 100 * den
}

/// Throughput as a percentage of a nominal capacity: `bytes` over
/// `update_ms` milliseconds is `bytes * 8000 / update_ms` bits per second,
/// and `mbps` megabits per second is `mbps * 1_000_000` of them; the
/// percentage is capped at 100.
pub open spec fn throughput_percentage(bytes: nat, update_ms: nat, mbps: nat) -> Reading {
    let num: nat = bytes * 800;
    let den: nat = update_ms * mbps * 1000;
    if num >= 100 * den {
        Reading::Quotient { num: 100, den: 1 }
    } else {
        Reading::Quotient { num: num as u128, den: den as u128 }
    }
}

/// `used` out of `total` as a percentage; a zero total reads as zero.
pub open spec fn share_percentage(used: u64, total: u64) -> Reading {
    if total == 0 {
        zero()
    } else {
        Reading::Quotient { num: (used * 100) as u128, den: total as u128 }
    }
}

/// Whether gauge `g` is one of the network gauges.
pub open spec fn is_network(g: Gauge) -> bool {
    g is NetTx || g is NetRx || g is NetTxRx
}

/// The reading that measurement `m` gives for gauge `g` over a tick of
/// `update_ms` milliseconds. A measurement that does not fit the gauge,
/// and a missing one, read as zero.
pub open spec fn reading_of(g: Gauge, m: Measure, update_ms: u64) -> Reading {
    match (g, m) {
        (Gauge::CpuUsage { .. }, Measure::Reported(bits)) => Reading::Reported(bits),
        (Gauge::CpuFreq { .. }, Measure::Count(c)) => Reading::Quotient { num: c as u128, den: 1 },
        (Gauge::MemoryUsage, Measure::Fraction { used, total }) => share_percentage(used, total),
        (Gauge::SwapUsage, Measure::Fraction { used, total }) => share_percentage(used, total),
        (Gauge::NetTx { unit, .. }, Measure::Traffic { transmitted, .. }) => throughput_percentage(
            transmitted as nat,
            update_ms as nat,
            mbps_of(unit),
        ),
        (Gauge::NetRx { unit, .. }, Measure::Traffic { received, .. }) => throughput_percentage(
            received as nat,
            update_ms as nat,
            mbps_of(unit),
        ),
        (Gauge::NetTxRx { unit, .. }, Measure::Traffic { received, transmitted }) =>
            throughput_percentage((received + transmitted) as nat, update_ms as nat, mbps_of(unit)),
        _ => zero(),
    }
}

/// `used` out of `total` as a percentage.
fn share(used: u64, total: u64) -> (r: Reading)
    ensures
        r == share_percentage(used, total),
{
    if total == 0 {
        Reading::Quotient { num: 0, den: 1 }
    } else {
        Reading::Quotient { num: used as u128 * 100, den: total as u128 }
    }
}

/// Throughput of `bytes` over `update_ms` milliseconds against `unit`.
fn throughput(bytes: u128, update_ms: u64, unit: NetworkSpeed) -> (r: Reading)
    requires
        bytes <= 2 * 0xffff_ffff_ffff_ffffu128,
    ensures
        r == throughput_percentage(bytes as nat, update_ms as nat, mbps_of(unit)),
{
    let mbps: u32 = unit.mbps();
    assert(mbps <= 5000);
    let num: u128 = bytes * 800;
    let per_mbps: u128 = update_ms as u128 * 1000;
    assert(per_mbps * (mbps as u128) <= 0xffff_ffff_ffff_ffffu128 * 1000 * 5000)
        by (nonlinear_arith)
        requires
            per_mbps == update_ms as u128 * 1000,
            update_ms <= 0xffff_ffff_ffff_ffffu64,
            mbps <= 5000,
    ;
    let den: u128 = per_mbps * mbps as u128;
    assert(den == update_ms as nat * mbps_of(unit) * 1000) by (nonlinear_arith)
        requires
            den == per_mbps * mbps as u128,
            per_mbps == update_ms as u128 * 1000,
            mbps == mbps_of(unit),
    ;
    if num >= 100 * den {
        Reading::Quotient { num: 100, den: 1 }
    } else {
        Reading::Quotient { num, den }
    }
}

/// The reading that measurement `m` gives for gauge `g` over a tick of
/// `update_ms` milliseconds.
pub fn reading(g: &Gauge, m: &Measure, update_ms: u64) -> (r: Reading)
    ensures
        r == reading_of(*g, *m, update_ms),
{
    match (g, m) {
        (Gauge::CpuUsage { .. }, Measure::Reported(bits)) => Reading::Reported(*bits),
        (Gauge::CpuFreq { .. }, Measure::Count(c)) => Reading::Quotient { num: *c as u128, den: 1 },
        (Gauge::MemoryUsage, Measure::Fraction { used, total }) => share(*used, *total),
        (Gauge::SwapUsage, Measure::Fraction { used, total }) => share(*used, *total),
        (Gauge::NetTx { unit, .. }, Measure::Traffic { transmitted, .. }) => throughput(
            *transmitted as u128,
            update_ms,
            *unit,
        ),
        (Gauge::NetRx { unit, .. }, Measure::Traffic { received, .. }) => throughput(
            *received as u128,
            update_ms,
            *unit,
        ),
        (Gauge::NetTxRx { unit, .. }, Measure::Traffic { received, transmitted }) => throughput(
            *received as u128 + *transmitted as u128,
            update_ms,
            *unit,
        ),
        _ => Reading::Quotient { num: 0, den: 1 },
    }
}

/// A network gauge reads as a percentage between 0 and 100, whatever the
/// measured throughput, also above the nominal capacity, and whatever
/// the tick length.
pub proof fn lemma_network_reading_clamped(g: Gauge, m: Measure, update_ms: u64)
    requires
        is_network(g),
    ensures
        is_percentage(reading_of(g, m, update_ms)),
{
    match (g, m) {
        (Gauge::NetTx { unit, .. }, Measure::Traffic { transmitted, .. }) => {
            lemma_throughput_clamped(transmitted as nat, update_ms as nat, mbps_of(unit));
        },
        (Gauge::NetRx { unit, .. }, Measure::Traffic { received, .. }) => {
            lemma_throughput_clamped(received as nat, update_ms as nat, mbps_of(unit));
        },
        (Gauge::NetTxRx { unit, .. }, Measure::Traffic { received, transmitted }) => {
            lemma_throughput_clamped((received + transmitted) as nat, update_ms as nat, mbps_of(unit));
        },
        _ => {},
    }
}

proof fn lemma_throughput_clamped(bytes: nat, update_ms: nat, mbps: nat)
    requires
        bytes <= 2 * 0xffff_ffff_ffff_ffffu128,
        update_ms <= 0xffff_ffff_ffff_ffffu128,
        mbps <= 5000,
    ensures
        is_percentage(throughput_percentage(bytes, update_ms, mbps)),
{
    let num: nat = bytes * 800;
    let den: nat = update_ms * mbps * 1000;
    if num < 100 * den {
        assert(den <= 0xffff_ffff_ffff_ffffu128 * 5000 * 1000) by (nonlinear_arith)
            requires
                update_ms <= 0xffff_ffff_ffff_ffffu128,
                mbps <= 5000,
                den == update_ms * mbps * 1000,
        ;
    }
}

/// The byte counters of one network interface since the last refresh.
#[derive(Clone, Debug)]
pub struct InterfaceTraffic {
    pub name: String,
    pub received: u64,
    pub transmitted: u64,
}

/// What the metrics provider reported at one refresh, as plain values.
/// Usage figures are `f32` bit patterns, frequencies are in MHz, memory
/// and swap in bytes; `core_*[i]` belongs to core `i`.
#[derive(Clone, Debug)]
pub struct ProviderSnapshot {
    pub global_usage_bits: u32,
    pub core_usage_bits: Vec<u32>,
    pub global_mhz: u64,
    pub core_mhz: Vec<u64>,
    pub used_memory: u64,
    pub total_memory: u64,
    pub used_swap: u64,
    pub total_swap: u64,
    pub interfaces: Vec<InterfaceTraffic>,
}

/// The traffic of the first interface in `ifs` named `name`, or `Missing`
/// where none is.
pub open spec fn traffic_of(ifs: Seq<InterfaceTraffic>, name: Seq<char>) -> Measure
    decreases ifs.len(),
{
    if ifs.len() == 0 {
        Measure::Missing
    } else if ifs[0].name@ == name {
        Measure::Traffic { received: ifs[0].received, transmitted: ifs[0].transmitted }
    } else {
        traffic_of(ifs.drop_first(), name)
    }
}

/// What snapshot `p` reports for gauge `g`: the all-cores figures, those
/// of a listed core, memory and swap, or the traffic of the named
/// interface; `Missing` for an unlisted core or interface and for kinds
/// with no backing sampler.
pub open spec fn measure_of(p: ProviderSnapshot, g: Gauge) -> Measure {
    match g {
        Gauge::CpuUsage { core } => if core == -1 {
            Measure::Reported(p.global_usage_bits)
        } else if 0 <= core < p.core_usage_bits.len() {
            Measure::Reported(p.core_usage_bits[core as int])
        } else {
            Measure::Missing
        },
        Gauge::CpuFreq { core } => if core == -1 {
            Measure::Count(p.global_mhz)
        } else if 0 <= core < p.core_mhz.len() {
            Measure::Count(p.core_mhz[core as int])
        } else {
            Measure::Missing
        },
        Gauge::MemoryUsage => Measure::Fraction { used: p.used_memory, total: p.total_memory },
        Gauge::SwapUsage => Measure::Fraction { used: p.used_swap, total: p.total_swap },
        Gauge::NetTx { netif, .. } | Gauge::NetRx { netif, .. } | Gauge::NetTxRx { netif, .. } =>
            traffic_of(p.interfaces@, netif@),
        _ => Measure::Missing,
    }
}

/// The reading of gauge `g` from snapshot `p` over a tick of `update_ms`
/// milliseconds.
pub open spec fn sample_of(p: ProviderSnapshot, g: Gauge, update_ms: u64) -> Reading {
    reading_of(g, measure_of(p, g), update_ms)
}

fn interface_traffic(ifs: &Vec<InterfaceTraffic>, name: &String) -> (r: Measure)
    ensures
        r == traffic_of(ifs@, name@),
{
    let mut i: usize = 0;
    assert(ifs@.subrange(0, ifs@.len() as int) =~= ifs@);
    while i < ifs.len()
        invariant
            i <= ifs.len(),
            traffic_of(ifs@.subrange(i as int, ifs@.len() as int), name@) == traffic_of(ifs@, name@),
        decreases ifs.len() - i,
    {
        assert(ifs@.subrange(i as int, ifs@.len() as int).drop_first() =~= ifs@.subrange(
            i + 1,
            ifs@.len() as int,
        ));
        if ifs[i].name == *name {
            return Measure::Traffic { received: ifs[i].received, transmitted: ifs[i].transmitted };
        }
        i = i + 1;
    }
    assert(ifs@.subrange(i as int, ifs@.len() as int).len() == 0);
    Measure::Missing
}

/// What snapshot `p` reports for gauge `g`.
pub fn measure(p: &ProviderSnapshot, g: &Gauge) -> (r: Measure)
    ensures
        r == measure_of(*p, *g),
{
    match g {
        Gauge::CpuUsage { core } => {
            if *core == -1 {
                Measure::Reported(p.global_usage_bits)
            } else if *core >= 0 && (*core as usize) < p.core_usage_bits.len() {
                Measure::Reported(p.core_usage_bits[*core as usize])
            } else {
                Measure::Missing
            }
        },
        Gauge::CpuFreq { core } => {
            if *core == -1 {
                Measure::Count(p.global_mhz)
            } else if *core >= 0 && (*core as usize) < p.core_mhz.len() {
                Measure::Count(p.core_mhz[*core as usize])
            } else {
                Measure::Missing
            }
        },
        Gauge::MemoryUsage => Measure::Fraction { used: p.used_memory, total: p.total_memory },
        Gauge::SwapUsage => Measure::Fraction { used: p.used_swap, total: p.total_swap },
        Gauge::NetTx { netif, .. } | Gauge::NetRx { netif, .. } | Gauge::NetTxRx {
            netif,
            ..
        } => interface_traffic(&p.interfaces, netif),
        _ => Measure::Missing,
    }
}

/// Reads every gauge from snapshot `p`, in slot order, over a tick of
/// `update_ms` milliseconds.
pub fn sample(p: &ProviderSnapshot, gauges: &Vec<Gauge>, update_ms: u64) -> (r: Vec<Reading>)
    ensures
        r.len() == gauges.len(),
        forall|k: int| 0 <= k < r.len() ==> #[trigger] r[k] == sample_of(*p, gauges[k], update_ms),
{
    let mut r: Vec<Reading> = Vec::new();
    let mut k: usize = 0;
    while k < gauges.len()
        invariant
            k <= gauges.len(),
            r.len() == k,
            forall|j: int| 0 <= j < k ==> #[trigger] r[j] == sample_of(*p, gauges[j], update_ms),
        decreases gauges.len() - k,
    {
        let m = measure(p, &gauges[k]);
        r.push(reading(&gauges[k], &m, update_ms));
        k = k + 1;
    }
    r
}

/// Whether `g` is a kind with no backing sampler.
pub open spec fn is_unsupported(g: Gauge) -> bool {
    !(g is CpuUsage || g is CpuFreq || g is MemoryUsage || g is SwapUsage || is_network(g))
}

/// A gauge kind with no backing sampler reads as zero, whatever the
/// provider reports.
pub proof fn lemma_unsupported_reads_zero(p: ProviderSnapshot, g: Gauge, update_ms: u64)
    requires
        is_unsupported(g),
    ensures
        sample_of(p, g, update_ms) == zero(),
{
}

/// A sampled network gauge reads as a percentage between 0 and 100, also
/// for an interface that the provider does not list.
pub proof fn lemma_sampled_network_clamped(p: ProviderSnapshot, g: Gauge, update_ms: u64)
    requires
        is_network(g),
    ensures
        is_percentage(sample_of(p, g, update_ms)),
{
    lemma_network_reading_clamped(g, measure_of(p, g), update_ms);
}

/// The bit pattern of a reading's `f32` where no floating-point arithmetic
/// is needed: a reported value as it came, and zero as `+0.0`, whose bits
/// are all clear. Other quotients have none.
pub open spec fn exact_bits_of(r: Reading) -> Option<u32> {
    match r {
        Reading::Reported(bits) => Some(bits),
        Reading::Quotient { num, den } => if num == 0 && den > 0 {
            Some(0)
        } else {
            None
        },
    }
}

/// The bit pattern of a reading's `f32` where no floating-point arithmetic
/// is needed, see `exact_bits_of`.
pub fn exact_bits(r: &Reading) -> (b: Option<u32>)
    ensures
        b == exact_bits_of(*r),
{
    match r {
        Reading::Reported(bits) => Some(*bits),
        Reading::Quotient { num, den } => if *num == 0 && *den > 0 {
            Some(0)
        } else {
            None
        },
    }
}

/// A gauge kind with no backing sampler sends the value `+0.0`: all bits
/// clear.
pub proof fn lemma_unsupported_sends_zero_bits(p: ProviderSnapshot, g: Gauge, update_ms: u64)
    requires
        is_unsupported(g),
    ensures
        exact_bits_of(sample_of(p, g, update_ms)) == Some(0u32),
{
}

/// The all-cores CPU gauges read what the provider reported for all cores:
/// the usage as its `f32`, the frequency as a whole number of MHz.
pub proof fn lemma_all_cores_reported(p: ProviderSnapshot, update_ms: u64)
    ensures
        sample_of(p, (Gauge::CpuUsage { core: -1i32 }), update_ms) == Reading::Reported(
            p.global_usage_bits,
        ),
        sample_of(p, (Gauge::CpuFreq { core: -1i32 }), update_ms) == (Reading::Quotient {
            num: p.global_mhz as u128,
            den: 1,
        }),
{
}

} // verus!

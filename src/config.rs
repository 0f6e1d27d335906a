//! The configuration model: gauge definitions, the nominal link capacities
//! that network gauges are measured against, and the snapshot that the
//! telemetry loop applies as a whole.

use vstd::prelude::*;

verus! {

/// How many gauges one snapshot may drive: slots `0` to `MAX_CHANNEL - 1`.
pub const MAX_CHANNEL: i32 = 6;

/// The refresh period, in milliseconds, before any snapshot is applied.
pub const DEFAULT_UPDATE_MS: u64 = 200;

/// A nominal link capacity, the denominator of a network gauge's
/// percentage.
#[derive(Clone, Copy, PartialEq, Eq, Structural, Debug)]
pub enum NetworkSpeed {
    Mbps1,
    Mbps5,
    Mbps10,
    Mbps50,
    Mbps100,
    Mbps500,
    Gbps1,
    Gbps5,
}

/// The capacity in megabits per second.
pub open spec fn mbps_of(s: NetworkSpeed) -> nat {
    match s {
        NetworkSpeed::Mbps1 => 1,
        NetworkSpeed::Mbps5 => 5,
        NetworkSpeed::Mbps10 => 10,
        NetworkSpeed::Mbps50 => 50,
        NetworkSpeed::Mbps100 => 100,
        NetworkSpeed::Mbps500 => 500,
        NetworkSpeed::Gbps1 => 1000,
        NetworkSpeed::Gbps5 => 5000,
    }
}

/// The label shown for a capacity.
pub open spec fn speed_label(s: NetworkSpeed) -> Seq<char> {
    match s {
        NetworkSpeed::Mbps1 => "1 Mbps"@,
        NetworkSpeed::Mbps5 => "5 Mbps"@,
        NetworkSpeed::Mbps10 => "10 Mbps"@,
        NetworkSpeed::Mbps50 => "50 Mbps"@,
        NetworkSpeed::Mbps100 => "100 Mbps"@,
        NetworkSpeed::Mbps500 => "500 Mbps"@,
        NetworkSpeed::Gbps1 => "1 Gbps"@,
        NetworkSpeed::Gbps5 => "5 Gbps"@,
    }
}

/// The name of a capacity in the persisted configuration.
pub open spec fn speed_name(s: NetworkSpeed) -> Seq<char> {
    match s {
        NetworkSpeed::Mbps1 => "Mbps1"@,
        NetworkSpeed::Mbps5 => "Mbps5"@,
        NetworkSpeed::Mbps10 => "Mbps10"@,
        NetworkSpeed::Mbps50 => "Mbps50"@,
        NetworkSpeed::Mbps100 => "Mbps100"@,
        NetworkSpeed::Mbps500 => "Mbps500"@,
        NetworkSpeed::Gbps1 => "Gbps1"@,
        NetworkSpeed::Gbps5 => "Gbps5"@,
    }
}

/// Every capacity, smallest first.
pub open spec fn all_speeds() -> Seq<NetworkSpeed> {
    seq![
        NetworkSpeed::Mbps1,
        NetworkSpeed::Mbps5,
        NetworkSpeed::Mbps10,
        NetworkSpeed::Mbps50,
        NetworkSpeed::Mbps100,
        NetworkSpeed::Mbps500,
        NetworkSpeed::Gbps1,
        NetworkSpeed::Gbps5,
    ]
}

impl NetworkSpeed {
    /// The capacity in megabits per second.
    pub fn mbps(&self) -> (r: u32)
        ensures
            r == mbps_of(*self),
    {
        match self {
            NetworkSpeed::Mbps1 => 1,
            NetworkSpeed::Mbps5 => 5,
            NetworkSpeed::Mbps10 => 10,
            NetworkSpeed::Mbps50 => 50,
            NetworkSpeed::Mbps100 => 100,
            NetworkSpeed::Mbps500 => 500,
            NetworkSpeed::Gbps1 => 1000,
            NetworkSpeed::Gbps5 => 5000,
        }
    }

    /// The label shown for this capacity, such as `100 Mbps`.
    pub fn label(&self) -> (r: &'static str)
        ensures
            r@ == speed_label(*self),
    {
        match self {
            NetworkSpeed::Mbps1 => "1 Mbps",
            NetworkSpeed::Mbps5 => "5 Mbps",
            NetworkSpeed::Mbps10 => "10 Mbps",
            NetworkSpeed::Mbps50 => "50 Mbps",
            NetworkSpeed::Mbps100 => "100 Mbps",
            NetworkSpeed::Mbps500 => "500 Mbps",
            NetworkSpeed::Gbps1 => "1 Gbps",
            NetworkSpeed::Gbps5 => "5 Gbps",
        }
    }

    /// The name of this capacity in the persisted configuration, such as
    /// `Mbps100`.
    pub fn name(&self) -> (r: &'static str)
        ensures
            r@ == speed_name(*self),
    {
        match self {
            NetworkSpeed::Mbps1 => "Mbps1",
            NetworkSpeed::Mbps5 => "Mbps5",
            NetworkSpeed::Mbps10 => "Mbps10",
            NetworkSpeed::Mbps50 => "Mbps50",
            NetworkSpeed::Mbps100 => "Mbps100",
            NetworkSpeed::Mbps500 => "Mbps500",
            NetworkSpeed::Gbps1 => "Gbps1",
            NetworkSpeed::Gbps5 => "Gbps5",
        }
    }

    /// Every capacity, smallest first.
    pub fn all() -> (r: Vec<NetworkSpeed>)
        ensures
            r@ == all_speeds(),
    {
        let r = vec![
            NetworkSpeed::Mbps1,
            NetworkSpeed::Mbps5,
            NetworkSpeed::Mbps10,
            NetworkSpeed::Mbps50,
            NetworkSpeed::Mbps100,
            NetworkSpeed::Mbps500,
            NetworkSpeed::Gbps1,
            NetworkSpeed::Gbps5,
        ];
        assert(r@ =~= all_speeds());
        r
    }
}

impl Default for NetworkSpeed {
    fn default() -> (r: NetworkSpeed)
        ensures
            r == NetworkSpeed::Mbps100,
    {
        NetworkSpeed::Mbps100
    }
}

/// One configured metric source, with what is needed to query it.
#[derive(Clone, Debug)]
pub enum Gauge {
    /// Utilisation of one core, in percent; `core == -1` is all cores.
    CpuUsage { core: i32 },
    /// Frequency of one core, in MHz; `core == -1` is all cores.
    CpuFreq { core: i32 },
    CpuTemp,
    MemoryUsage,
    SwapUsage,
    NetTx { netif: String, unit: NetworkSpeed },
    NetRx { netif: String, unit: NetworkSpeed },
    NetTxRx { netif: String, unit: NetworkSpeed },
    DiskUsage { name: String },
    DiskTx { name: String },
    DiskRx { name: String },
    DiskTxRx { name: String },
    GpuUsage { id: i32 },
    GpuFreq { id: i32 },
    GpuTemp { id: i32 },
}

/// The names of the gauge kinds, in declaration order.
pub open spec fn gauge_type_names() -> Seq<Seq<char>> {
    seq![
        "CpuUsage"@, "CpuFreq"@, "CpuTemp"@, "MemoryUsage"@, "SwapUsage"@,
        "NetTx"@, "NetRx"@, "NetTxRx"@,
        "DiskUsage"@, "DiskTx"@, "DiskRx"@, "DiskTxRx"@,
        "GpuUsage"@, "GpuFreq"@, "GpuTemp"@,
    ]
}

/// The descriptions of the gauge kinds, in declaration order.
pub open spec fn gauge_type_descriptions() -> Seq<Seq<char>> {
    seq![
        "CPU Utilization"@, "CPU Frequency"@, "CPU Temperature"@,
        "Memory Usage"@, "Swap Usage"@,
        "Network Transmit Speed"@, "Network Receive Speed"@,
        "Network Receive & Transmit Speed"@,
        "Disk Usage"@, "Disk Write Speed"@, "Disk Read Speed"@, "Disk Read & Write Speed"@,
        "GPU Utilization"@, "GPU Core Frequency"@, "GPU Temperature"@,
    ]
}

/// The position of a gauge's kind in declaration order.
pub open spec fn gauge_index(g: Gauge) -> int {
    match g {
        Gauge::CpuUsage { .. } => 0,
        Gauge::CpuFreq { .. } => 1,
        Gauge::CpuTemp => 2,
        Gauge::MemoryUsage => 3,
        Gauge::SwapUsage => 4,
        Gauge::NetTx { .. } => 5,
        Gauge::NetRx { .. } => 6,
        Gauge::NetTxRx { .. } => 7,
        Gauge::DiskUsage { .. } => 8,
        Gauge::DiskTx { .. } => 9,
        Gauge::DiskRx { .. } => 10,
        Gauge::DiskTxRx { .. } => 11,
        Gauge::GpuUsage { .. } => 12,
        Gauge::GpuFreq { .. } => 13,
        Gauge::GpuTemp { .. } => 14,
    }
}

impl Gauge {
    /// The name of this gauge's kind, such as `NetTx`.
    pub fn kind_name(&self) -> (r: &'static str)
        ensures
            r@ == gauge_type_names()[gauge_index(*self)],
    {
        match self {
            Gauge::CpuUsage { .. } => "CpuUsage",
            Gauge::CpuFreq { .. } => "CpuFreq",
            Gauge::CpuTemp => "CpuTemp",
            Gauge::MemoryUsage => "MemoryUsage",
            Gauge::SwapUsage => "SwapUsage",
            Gauge::NetTx { .. } => "NetTx",
            Gauge::NetRx { .. } => "NetRx",
            Gauge::NetTxRx { .. } => "NetTxRx",
            Gauge::DiskUsage { .. } => "DiskUsage",
            Gauge::DiskTx { .. } => "DiskTx",
            Gauge::DiskRx { .. } => "DiskRx",
            Gauge::DiskTxRx { .. } => "DiskTxRx",
            Gauge::GpuUsage { .. } => "GpuUsage",
            Gauge::GpuFreq { .. } => "GpuFreq",
            Gauge::GpuTemp { .. } => "GpuTemp",
        }
    }

    /// The description of this gauge's kind, such as `CPU Utilization`.
    pub fn description(&self) -> (r: &'static str)
        ensures
            r@ == gauge_type_descriptions()[gauge_index(*self)],
    {
        match self {
            Gauge::CpuUsage { .. } => "CPU Utilization",
            Gauge::CpuFreq { .. } => "CPU Frequency",
            Gauge::CpuTemp => "CPU Temperature",
            Gauge::MemoryUsage => "Memory Usage",
            Gauge::SwapUsage => "Swap Usage",
            Gauge::NetTx { .. } => "Network Transmit Speed",
            Gauge::NetRx { .. } => "Network Receive Speed",
            Gauge::NetTxRx { .. } => "Network Receive & Transmit Speed",
            Gauge::DiskUsage { .. } => "Disk Usage",
            Gauge::DiskTx { .. } => "Disk Write Speed",
            Gauge::DiskRx { .. } => "Disk Read Speed",
            Gauge::DiskTxRx { .. } => "Disk Read & Write Speed",
            Gauge::GpuUsage { .. } => "GPU Utilization",
            Gauge::GpuFreq { .. } => "GPU Core Frequency",
            Gauge::GpuTemp { .. } => "GPU Temperature",
        }
    }
}

/// A configuration snapshot: whether the link is wanted, the serial port,
/// the refresh period in milliseconds and the gauges, slot `k` being
/// `active[k]`. A new snapshot replaces the current one as a whole.
#[derive(Clone, Debug)]
pub struct ConfigFile {
    pub power: bool,
    pub port: String,
    pub update: u64,
    pub active: Vec<Gauge>,
}

impl ConfigFile {
    /// A snapshot within the limits of the model: a positive refresh
    /// period and at most `MAX_CHANNEL` gauges. The telemetry loop applies
    /// no other.
    pub open spec fn is_valid(&self) -> bool {
        &&& self.update > 0
        &&& self.active.len() <= MAX_CHANNEL
    }

    /// Whether this snapshot asks for a link: it is enabled and names a
    /// port.
    pub open spec fn wants_link(&self) -> bool {
        self.power && self.port@.len() > 0
    }

    /// Whether this snapshot lies within the limits of the model.
    pub fn check(&self) -> (r: bool)
        ensures
            r == self.is_valid(),
    {
        self.update > 0 && self.active.len() <= 6
    }
}

impl Default for ConfigFile {
    /// Disabled, no port, the default refresh period and no gauges.
    fn default() -> (r: ConfigFile)
        ensures
            !r.power,
            r.port@.len() == 0,
            r.update == DEFAULT_UPDATE_MS,
            r.active.len() == 0,
    {
        ConfigFile { power: false, port: String::new(), update: DEFAULT_UPDATE_MS, active: Vec::new() }
    }
}

/// Copies each label into a `String` of its own.
fn owned_labels(items: &[&'static str]) -> (r: Vec<String>)
    ensures
        r.len() == items@.len(),
        forall|i: int| 0 <= i < r.len() ==> (#[trigger] r[i])@ == items@[i]@,
{
    let mut r: Vec<String> = Vec::new();
    let mut i: usize = 0;
    while i < items.len()
        invariant
            i <= items@.len(),
            r.len() == i,
            forall|j: int| 0 <= j < i ==> (#[trigger] r[j])@ == items@[j]@,
        decreases items@.len() - i,
    {
        r.push(items[i].to_owned());
        i = i + 1;
    }
    r
}

/// The number of slots a snapshot can fill.
pub fn get_channel_count() -> (r: i32)
    ensures
        r == MAX_CHANNEL,
{
    MAX_CHANNEL
}

/// The gauge kinds, as two lists in declaration order: their names and
/// their descriptions.
pub fn get_gauge_types() -> (r: (Vec<String>, Vec<String>))
    ensures
        r.0.len() == gauge_type_names().len(),
        r.1.len() == gauge_type_descriptions().len(),
        forall|i: int| 0 <= i < r.0.len() ==> (#[trigger] r.0[i])@ == gauge_type_names()[i],
        forall|i: int| 0 <= i < r.1.len() ==> (#[trigger] r.1[i])@ == gauge_type_descriptions()[i],
{
    let names: [&'static str; 15] = [
        "CpuUsage", "CpuFreq", "CpuTemp", "MemoryUsage", "SwapUsage",
        "NetTx", "NetRx", "NetTxRx",
        "DiskUsage", "DiskTx", "DiskRx", "DiskTxRx",
        "GpuUsage", "GpuFreq", "GpuTemp",
    ];
    let descriptions: [&'static str; 15] = [
        "CPU Utilization", "CPU Frequency", "CPU Temperature",
        "Memory Usage", "Swap Usage",
        "Network Transmit Speed", "Network Receive Speed",
        "Network Receive & Transmit Speed",
        "Disk Usage", "Disk Write Speed", "Disk Read Speed", "Disk Read & Write Speed",
        "GPU Utilization", "GPU Core Frequency", "GPU Temperature",
    ];
    let n = owned_labels(&names);
    let d = owned_labels(&descriptions);
    (n, d)
}

/// The link capacities, as two lists, smallest first: their labels, such
/// as `1 Mbps`, and their names in the persisted configuration, such as
/// `Mbps1`.
pub fn get_speed_units() -> (r: (Vec<String>, Vec<String>))
    ensures
        r.0.len() == all_speeds().len(),
        r.1.len() == all_speeds().len(),
        forall|i: int| 0 <= i < r.0.len() ==> (#[trigger] r.0[i])@ == speed_label(all_speeds()[i]),
        forall|i: int| 0 <= i < r.1.len() ==> (#[trigger] r.1[i])@ == speed_name(all_speeds()[i]),
{
    let speeds = NetworkSpeed::all();
    let mut names: Vec<String> = Vec::new();
    let mut labels: Vec<String> = Vec::new();
    let mut i: usize = 0;
    while i < speeds.len()
        invariant
            speeds@ == all_speeds(),
            i <= speeds.len(),
            names.len() == i,
            labels.len() == i,
            forall|j: int| 0 <= j < i ==> (#[trigger] names[j])@ == speed_name(all_speeds()[j]),
            forall|j: int| 0 <= j < i ==> (#[trigger] labels[j])@ == speed_label(all_speeds()[j]),
        decreases speeds.len() - i,
    {
        names.push(speeds[i].name().to_owned());
        labels.push(speeds[i].label().to_owned());
        i = i + 1;
    }
    (labels, names)
}

} // verus!

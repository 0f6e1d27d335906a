use cpu_meter::config::{ConfigFile, Gauge, NetworkSpeed};
use cpu_meter::sampler::{InterfaceTraffic, ProviderSnapshot};
use cpu_meter::telemetry::{
    Action, Event, Phase, Poll, Telemetry, DISCONNECTED_EXIT, RECOVERY_MS,
};

fn snapshot(power: bool, port: &str, update: u64, active: Vec<Gauge>) -> ConfigFile {
    ConfigFile { power, port: port.to_string(), update, active }
}

fn quiet_provider() -> ProviderSnapshot {
    ProviderSnapshot {
        global_usage_bits: 0,
        core_usage_bits: vec![],
        global_mhz: 0,
        core_mhz: vec![],
        used_memory: 0,
        total_memory: 0,
        used_swap: 0,
        total_swap: 0,
        interfaces: vec![],
    }
}

fn sampled(rounded: Vec<u32>) -> Event {
    Event::Sampled { provider: quiet_provider(), rounded }
}

fn expect_sleep(a: Action, ms: u64) {
    match a {
        Action::Sleep(m) => assert_eq!(m, ms),
        other => panic!("expected a sleep, got {:?}", other),
    }
}

fn expect_open(a: Action, port: &str) {
    match a {
        Action::Open(p) => assert_eq!(p, port),
        other => panic!("expected an open, got {:?}", other),
    }
}

/// Runs one tick that applies `c` and opens its port with outcome `opened`.
fn apply(t: &mut Telemetry, c: ConfigFile, opened: bool) {
    assert!(matches!(t.step(Event::Woke), Action::Poll));
    let port = c.port.clone();
    expect_open(t.step(Event::Polled(Poll::Received(c))), &port);
    assert!(matches!(t.step(Event::Opened(opened)), Action::Sample));
}

#[test]
fn starts_with_default_sleep() {
    let t = Telemetry::new();
    expect_sleep(t.start(), 200);
    assert!(!t.linked);
    assert_eq!(t.phase, Phase::Sleeping);
}

#[test]
fn end_to_end_cpu_usage_frame() {
    let mut t = Telemetry::new();
    expect_sleep(t.start(), 200);
    apply(&mut t, snapshot(true, "COM3", 200, vec![Gauge::CpuUsage { core: -1 }]), true);
    assert!(t.linked);
    let bits = 42.5f32.to_bits();
    let provider = ProviderSnapshot { global_usage_bits: bits, ..quiet_provider() };
    match t.step(Event::Sampled { provider, rounded: vec![0xDEAD_BEEF] }) {
        Action::Write(frames) => assert_eq!(frames, vec![[0x00, 0x00, 0x2A, 0x42]]),
        other => panic!("expected a write, got {:?}", other),
    }
    expect_sleep(t.step(Event::Wrote(true)), 200);
    assert_eq!(t.phase, Phase::Sleeping);
}

#[test]
fn frames_go_out_in_slot_order() {
    let mut t = Telemetry::new();
    let gauges = vec![
        Gauge::NetTx { netif: "eth0".to_string(), unit: NetworkSpeed::Mbps100 },
        Gauge::MemoryUsage,
        Gauge::CpuTemp,
    ];
    apply(&mut t, snapshot(true, "/dev/ttyACM0", 100, gauges), true);
    let provider = ProviderSnapshot {
        used_memory: 4,
        total_memory: 16,
        interfaces: vec![InterfaceTraffic { name: "eth0".to_string(), received: 0, transmitted: 2500 }],
        ..quiet_provider()
    };
    let rounded = vec![0xAABB_CCDD, 0x1122_3344, 0xFFFF_FFFF];
    match t.step(Event::Sampled { provider, rounded }) {
        Action::Write(frames) => {
            // The gauge with no sampler sends zero whatever the rounding says.
            assert_eq!(frames, vec![[0, 0xCC, 0xBB, 0xAA], [1, 0x33, 0x22, 0x11], [2, 0, 0, 0]]);
        }
        other => panic!("expected a write, got {:?}", other),
    }
}

#[test]
fn one_snapshot_applied_per_tick() {
    let queue = vec![
        snapshot(true, "A", 100, vec![Gauge::MemoryUsage]),
        snapshot(true, "B", 300, vec![]),
        snapshot(false, "C", 400, vec![]),
    ];
    let mut pending: std::collections::VecDeque<ConfigFile> = queue.into_iter().collect();
    let mut t = Telemetry::new();
    let mut polls = 0;
    let mut a = t.start();
    // Drive one tick: stop at its closing sleep.
    loop {
        let ev = match a {
            Action::Sleep(_) if polls > 0 => break,
            Action::Sleep(_) => Event::Woke,
            Action::Poll => {
                polls += 1;
                match pending.pop_front() {
                    Some(c) => Event::Polled(Poll::Received(c)),
                    None => Event::Polled(Poll::Empty),
                }
            }
            Action::Open(_) => Event::Opened(true),
            Action::Close => Event::Closed,
            Action::Sample => sampled(vec![0; t.current.active.len()]),
            Action::Write(_) => Event::Wrote(true),
            Action::Exit(_) => panic!("unexpected exit"),
        };
        a = t.step(ev);
    }
    assert_eq!(polls, 1);
    assert_eq!(pending.len(), 2);
    assert_eq!(t.current.port, "A");
    expect_sleep(a, 100);
}

#[test]
fn empty_poll_keeps_snapshot() {
    let mut t = Telemetry::new();
    apply(&mut t, snapshot(true, "COM1", 150, vec![]), true);
    expect_sleep(t.step(sampled(vec![])), 150);
    assert!(matches!(t.step(Event::Woke), Action::Poll));
    assert!(matches!(t.step(Event::Polled(Poll::Empty)), Action::Sample));
    assert_eq!(t.current.port, "COM1");
    assert!(t.linked);
}

#[test]
fn failed_write_enters_recovery_until_reopen() {
    let mut t = Telemetry::new();
    apply(&mut t, snapshot(true, "COM7", 250, vec![Gauge::SwapUsage]), true);
    assert!(matches!(t.step(sampled(vec![1])), Action::Write(_)));
    expect_sleep(t.step(Event::Wrote(false)), RECOVERY_MS);
    assert_eq!(RECOVERY_MS, 500);
    for _ in 0..3 {
        assert_eq!(t.phase, Phase::Backoff);
        // No tick while recovering: neither a poll nor a sample is accepted.
        assert!(!t.accepts(&Event::Polled(Poll::Empty)));
        assert!(!t.accepts(&sampled(vec![0])));
        expect_open(t.step(Event::Woke), "COM7");
        expect_sleep(t.step(Event::Opened(false)), 500);
        assert!(!t.linked);
    }
    expect_open(t.step(Event::Woke), "COM7");
    expect_sleep(t.step(Event::Opened(true)), 250);
    assert!(t.linked);
    assert_eq!(t.phase, Phase::Sleeping);
    assert!(matches!(t.step(Event::Woke), Action::Poll));
}

#[test]
fn disabled_snapshot_closes_and_writes_nothing() {
    let mut t = Telemetry::new();
    apply(&mut t, snapshot(true, "COM3", 200, vec![Gauge::MemoryUsage]), true);
    assert!(matches!(t.step(sampled(vec![5])), Action::Write(_)));
    expect_sleep(t.step(Event::Wrote(true)), 200);
    assert!(matches!(t.step(Event::Woke), Action::Poll));
    let off = snapshot(false, "COM3", 200, vec![Gauge::MemoryUsage, Gauge::CpuTemp]);
    assert!(matches!(t.step(Event::Polled(Poll::Received(off))), Action::Close));
    assert!(!t.linked);
    assert!(matches!(t.step(Event::Closed), Action::Sample));
    for _ in 0..3 {
        expect_sleep(t.step(sampled(vec![1, 2])), 200);
        assert!(matches!(t.step(Event::Woke), Action::Poll));
        assert!(matches!(t.step(Event::Polled(Poll::Empty)), Action::Sample));
    }
}

#[test]
fn enabled_snapshot_without_port_opens_nothing() {
    let mut t = Telemetry::new();
    assert!(matches!(t.step(Event::Woke), Action::Poll));
    let c = snapshot(true, "", 200, vec![Gauge::MemoryUsage]);
    assert!(matches!(t.step(Event::Polled(Poll::Received(c))), Action::Close));
    assert!(matches!(t.step(Event::Closed), Action::Sample));
    expect_sleep(t.step(sampled(vec![3])), 200);
}

#[test]
fn failed_open_is_not_fatal() {
    let mut t = Telemetry::new();
    apply(&mut t, snapshot(true, "bogus", 200, vec![Gauge::MemoryUsage]), false);
    assert!(!t.linked);
    expect_sleep(t.step(sampled(vec![3])), 200);
    assert_eq!(t.phase, Phase::Sleeping);
}

#[test]
fn disconnected_channel_exits() {
    let mut t = Telemetry::new();
    assert!(matches!(t.step(Event::Woke), Action::Poll));
    match t.step(Event::Polled(Poll::Disconnected)) {
        Action::Exit(code) => assert_eq!(code, DISCONNECTED_EXIT),
        other => panic!("expected an exit, got {:?}", other),
    }
    assert_eq!(DISCONNECTED_EXIT, 1);
    assert_eq!(t.phase, Phase::Halted);
    assert!(!t.accepts(&Event::Woke));
}

#[test]
fn accepts_only_awaited_outcome() {
    let t = Telemetry::new();
    assert!(t.accepts(&Event::Woke));
    assert!(!t.accepts(&Event::Closed));
    assert!(!t.accepts(&Event::Opened(true)));
}

#[test]
fn out_of_range_snapshot_not_applied() {
    let mut t = Telemetry::new();
    apply(&mut t, snapshot(true, "COM3", 200, vec![Gauge::MemoryUsage]), true);
    assert!(matches!(t.step(sampled(vec![0])), Action::Write(_)));
    expect_sleep(t.step(Event::Wrote(true)), 200);
    assert!(matches!(t.step(Event::Woke), Action::Poll));
    let zero_period = snapshot(false, "COM9", 0, vec![]);
    assert!(!zero_period.check());
    assert!(matches!(t.step(Event::Polled(Poll::Received(zero_period))), Action::Sample));
    assert_eq!(t.current.port, "COM3");
    assert_eq!(t.current.update, 200);
    assert!(t.linked);
}

#[test]
fn too_many_gauges_not_applied() {
    let mut t = Telemetry::new();
    assert!(matches!(t.step(Event::Woke), Action::Poll));
    let seven = snapshot(true, "COM3", 200, (0..7).map(|_| Gauge::CpuTemp).collect());
    assert_eq!(seven.active.len(), 7);
    assert!(!seven.check());
    assert!(matches!(t.step(Event::Polled(Poll::Received(seven))), Action::Sample));
    assert!(t.current.active.is_empty());
    assert!(!t.linked);
}

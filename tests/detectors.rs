use defense_monitor::detect::{
    growth_of, CpuSaturationDetector, DetectorConfig, FindingKind, MemoryGrowthDetector,
    MitigationPolicy, NetworkSpikeDetector,
};
use defense_monitor::text::{append_decimal, append_list, parse_network_rate};
use defense_monitor::window::RollingWindow;

#[test]
fn window_length_is_min_of_pushes_and_capacity() {
    let mut w: RollingWindow<u32> = RollingWindow::new();
    assert_eq!(w.capacity(), 5);
    for i in 0..12u32 {
        w.push(i);
        let expected = std::cmp::min((i + 1) as usize, 5);
        assert_eq!(w.snapshot().len(), expected);
        assert_eq!(w.len(), expected);
    }
}

#[test]
fn window_evicts_oldest_first() {
    let mut w: RollingWindow<u32> = RollingWindow::new();
    for v in [1u32, 2, 3, 4, 5] {
        w.push(v);
    }
    assert_eq!(w.snapshot(), vec![1, 2, 3, 4, 5]);
    w.push(6);
    assert_eq!(w.snapshot(), vec![2, 3, 4, 5, 6]);
    assert!(!w.snapshot().contains(&1));
    w.push(7);
    assert_eq!(w.snapshot(), vec![3, 4, 5, 6, 7]);
}

#[test]
fn window_with_small_capacity() {
    let mut w: RollingWindow<u32> = RollingWindow::with_capacity(2);
    w.push(9);
    assert_eq!(w.snapshot(), vec![9]);
    w.push(8);
    w.push(7);
    assert_eq!(w.snapshot(), vec![8, 7]);
    assert_eq!(w.capacity(), 2);
}

#[test]
fn network_rate_parsing() {
    assert_eq!(parse_network_rate("75 MB/s"), Some(75));
    assert_eq!(parse_network_rate("0 MB/s"), Some(0));
    assert_eq!(parse_network_rate("+12 MB/s"), Some(12));
    assert_eq!(parse_network_rate("4294967295 MB/s"), Some(4294967295));
    assert_eq!(parse_network_rate("4294967296 MB/s"), None);
    assert_eq!(parse_network_rate("75MB/s"), None);
    assert_eq!(parse_network_rate(" MB/s"), None);
    assert_eq!(parse_network_rate("7a MB/s"), None);
    assert_eq!(parse_network_rate("75 KB/s"), None);
    assert_eq!(parse_network_rate("-5 MB/s"), None);
    assert_eq!(parse_network_rate(""), None);
}

#[test]
fn decimal_and_list_text() {
    let mut s = String::from("n=");
    append_decimal(&mut s, 0);
    assert_eq!(s, "n=0");
    let mut s = String::new();
    append_decimal(&mut s, 18446744073709551615);
    assert_eq!(s, "18446744073709551615");
    let mut s = String::new();
    append_list(&mut s, &vec![75, 75, 75]);
    assert_eq!(s, "[75, 75, 75]");
    let mut s = String::new();
    append_list(&mut s, &vec![]);
    assert_eq!(s, "[]");
}

#[test]
fn network_spike_fires_from_third_push_while_three_remain() {
    let mut d = NetworkSpikeDetector::new();
    let fired: Vec<bool> = [80u32, 80, 80, 10, 10]
        .iter()
        .map(|v| d.observe_rate(*v).is_some())
        .collect();
    assert_eq!(fired, vec![false, false, true, true, true]);
}

#[test]
fn network_spike_first_firing_only_at_third() {
    let mut d = NetworkSpikeDetector::new();
    assert!(d.observe("80 MB/s").is_none());
    assert!(d.observe("80 MB/s").is_none());
    let f = d.observe("80 MB/s").expect("third spike fires");
    assert_eq!(f.kind, FindingKind::NetworkSpike);
    assert_eq!(
        f.mitigation,
        Some(MitigationPolicy { cpu_threshold_centi: 2000, memory_threshold_mb: 50 })
    );
    assert!(f.message.contains("[80, 80, 80]"));
}

#[test]
fn network_spike_count_is_order_independent() {
    let mut d = NetworkSpikeDetector::new();
    let mut last = None;
    for v in [80u32, 10, 80, 10, 80] {
        last = d.observe_rate(v);
    }
    let f = last.expect("three spikes in window fire");
    assert!(f.message.contains("[80, 10, 80, 10, 80]"));
}

#[test]
fn network_two_spikes_never_fire() {
    let mut d = NetworkSpikeDetector::new();
    for v in [80u32, 10, 71, 10, 70, 70, 70] {
        assert!(d.observe_rate(v).is_none());
    }
}

#[test]
fn network_unparseable_sample_is_ignored() {
    let mut d = NetworkSpikeDetector::new();
    d.observe("80 MB/s");
    d.observe("80 MB/s");
    assert!(d.observe("lots").is_none());
    assert_eq!(d.snapshot(), vec![80, 80]);
    assert!(d.observe("80 MB/s").is_some());
}

#[test]
fn memory_growth_total_increase_fires_on_fourth() {
    let mut d = MemoryGrowthDetector::new();
    assert!(d.observe(10).is_none());
    assert!(d.observe(15).is_none());
    assert!(d.observe(20).is_none());
    let f = d.observe(30).expect("total increase of 20 fires");
    assert_eq!(f.kind, FindingKind::MemoryGrowth);
    assert_eq!(
        f.mitigation,
        Some(MitigationPolicy { cpu_threshold_centi: 1000, memory_threshold_mb: 100 })
    );
    assert_eq!(
        f.message,
        "Possible memory leak: RAM use rose 20% in recent window [10, 15, 20, 30]"
    );
}

#[test]
fn memory_without_growth_never_fires() {
    let mut d = MemoryGrowthDetector::new();
    for v in [10u32, 5, 10, 5, 10, 5, 10] {
        assert!(d.observe(v).is_none());
    }
}

#[test]
fn memory_single_jump_does_not_fire() {
    let mut d = MemoryGrowthDetector::new();
    for v in [10u32, 25, 25, 25] {
        assert!(d.observe(v).is_none());
    }
}

#[test]
fn memory_second_jump_fires() {
    let mut d = MemoryGrowthDetector::new();
    for v in [10u32, 25, 25] {
        assert!(d.observe(v).is_none());
    }
    assert!(d.observe(40).is_some());
}

#[test]
fn memory_needs_four_samples() {
    let mut d = MemoryGrowthDetector::new();
    assert!(d.observe(0).is_none());
    assert!(d.observe(50).is_none());
    assert!(d.observe(100).is_none());
    assert!(d.observe(100).is_some());
}

#[test]
fn memory_drops_count_as_zero() {
    let mut d = MemoryGrowthDetector::new();
    for v in [50u32, 10, 20, 29] {
        assert!(d.observe(v).is_none());
    }
    assert!(d.observe(30).is_some());
}

#[test]
fn cpu_ninety_never_fires() {
    let d = CpuSaturationDetector::new();
    assert!(d.observe(90).is_none());
    assert!(d.observe(0).is_none());
}

#[test]
fn cpu_ninety_one_fires_immediately() {
    let d = CpuSaturationDetector::new();
    let f = d.observe(91).expect("91 fires");
    assert_eq!(f.kind, FindingKind::CpuSaturation);
    assert_eq!(f.mitigation, None);
    assert_eq!(f.message, "CPU spike detected: current use 91%");
}

#[test]
fn standard_config_values() {
    let c = DetectorConfig::standard();
    assert_eq!(c.window, 5);
    assert_eq!(c.spike_rate_mb, 70);
    assert_eq!(c.spike_count, 3);
    assert_eq!(c.growth_min_samples, 4);
    assert_eq!(c.growth_total, 20);
    assert_eq!(c.jump_size, 10);
    assert_eq!(c.jump_count, 2);
    assert_eq!(c.cpu_limit, 90);
}

#[test]
fn custom_config_thresholds() {
    let mut c = DetectorConfig::standard();
    c.window = 3;
    c.spike_count = 2;
    c.spike_rate_mb = 100;
    c.cpu_limit = 50;
    let mut d = NetworkSpikeDetector::with_config(c);
    assert!(d.observe_rate(101).is_none());
    let f = d.observe_rate(150).expect("two spikes fire");
    assert_eq!(
        f.message,
        "Possible DDoS detected: 2+ spikes above 100 MB/s in recent window [101, 150]"
    );
    d.observe_rate(1);
    d.observe_rate(1);
    assert_eq!(d.snapshot(), vec![150, 1, 1]);
    assert!(d.observe_rate(1).is_none());
    let cpu = CpuSaturationDetector::with_config(c);
    assert!(cpu.observe(51).is_some());
    assert!(cpu.observe(50).is_none());
}

#[test]
fn growth_totals_and_jumps() {
    assert_eq!(growth_of(&vec![10, 15, 20, 30], 10), (20, 0));
    assert_eq!(growth_of(&vec![10, 25, 25, 40], 10), (30, 2));
    assert_eq!(growth_of(&vec![10, 5, 10, 5], 10), (5, 0));
    assert_eq!(growth_of(&vec![0, 4294967295, 0, 4294967295], 10), (8589934590, 2));
    assert_eq!(growth_of(&vec![7], 10), (0, 0));
}

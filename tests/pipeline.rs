use defense_monitor::detect::{FindingKind, MitigationPolicy, NetworkSpikeDetector};
use defense_monitor::event_log::EventLog;
use defense_monitor::mitigate::{
    is_suspicious_name, plan_mitigation, select_busiest, select_name_filtered,
    termination_message, ProcessInfo,
};
use defense_monitor::monitor::MonitorController;
use defense_monitor::pipeline::{DefensePipeline, Sample};

fn process(pid: u32, name: &str, cpu_centi: u32, memory_mb: u64) -> ProcessInfo {
    ProcessInfo { pid, name: name.to_string(), cpu_centi, memory_mb }
}

fn sample_from_json(text: &str) -> Sample {
    let v: serde_json::Value = serde_json::from_str(text).expect("valid json");
    Sample {
        cpu: v["cpu"].as_u64().expect("cpu") as u32,
        network: v["network"].as_str().expect("network").to_string(),
        memory: v["memory"].as_u64().expect("memory") as u32,
    }
}

#[test]
fn suspicious_names() {
    assert!(is_suspicious_name("attack-sim"));
    assert!(is_suspicious_name("simulador_red"));
    assert!(is_suspicious_name("proceso_malicioso.exe"));
    assert!(is_suspicious_name("ataque"));
    assert!(!is_suspicious_name("chrome"));
    assert!(!is_suspicious_name("Attack"));
    assert!(!is_suspicious_name(""));
}

#[test]
fn name_filter_terminates_attacker_spares_chrome() {
    let procs = vec![
        process(1, "chrome", 9900, 4000),
        process(2, "attack-sim", 2500, 10),
        process(3, "attack-idle", 100, 10),
        process(4, "simulator", 0, 51),
    ];
    let policy = MitigationPolicy { cpu_threshold_centi: 2000, memory_threshold_mb: 50 };
    assert_eq!(select_name_filtered(&procs, policy), vec![2, 4]);
}

#[test]
fn name_filter_under_network_finding() {
    let mut d = NetworkSpikeDetector::new();
    d.observe_rate(80);
    d.observe_rate(80);
    let f = d.observe_rate(80).expect("spike");
    let procs = vec![process(7, "chrome", 9900, 10), process(8, "attack-sim", 2500, 10)];
    assert_eq!(plan_mitigation(&f, &procs), vec![8]);
}

#[test]
fn busiest_process_is_selected() {
    let procs = vec![
        process(1, "a", 9100, 0),
        process(2, "b", 9900, 0),
        process(3, "c", 9900, 0),
        process(4, "d", 5000, 0),
    ];
    assert_eq!(select_busiest(&procs), Some(2));
    assert_eq!(select_busiest(&vec![process(1, "a", 9000, 0)]), None);
    assert_eq!(select_busiest(&vec![]), None);
}

#[test]
fn cpu_finding_ignores_names() {
    let mut p = DefensePipeline::new();
    let m = MonitorController::new();
    let mut log = EventLog::new();
    let s = Sample { cpu: 95, network: "bad".to_string(), memory: 1 };
    let fs = p.ingest(&s, &m, &mut log);
    assert_eq!(fs.len(), 1);
    assert_eq!(fs[0].kind, FindingKind::CpuSaturation);
    let procs = vec![process(11, "chrome", 9500, 0), process(12, "attack", 9200, 0)];
    assert_eq!(plan_mitigation(&fs[0], &procs), vec![11]);
    assert_eq!(plan_mitigation(&fs[0], &vec![process(13, "x", 8000, 0)]), Vec::<u32>::new());
}

#[test]
fn disabled_monitor_drops_samples() {
    let mut p = DefensePipeline::new();
    let mut m = MonitorController::new();
    let mut log = EventLog::new();
    let hot = Sample { cpu: 99, network: "90 MB/s".to_string(), memory: 90 };
    m.disable();
    assert!(!m.is_enabled());
    for _ in 0..10 {
        assert!(p.ingest(&hot, &m, &mut log).is_empty());
    }
    assert_eq!(log.len(), 0);
    assert!(p.network_window().is_empty());
    assert!(p.memory_window().is_empty());
    m.enable();
    let calm = Sample { cpu: 10, network: "10 MB/s".to_string(), memory: 5 };
    assert!(p.ingest(&calm, &m, &mut log).is_empty());
    assert_eq!(p.network_window(), vec![10]);
    assert_eq!(p.memory_window(), vec![5]);
    let fs = p.ingest(&hot, &m, &mut log);
    assert_eq!(fs.len(), 1);
    assert_eq!(fs[0].kind, FindingKind::CpuSaturation);
    assert_eq!(log.len(), 1);
}

#[test]
fn set_monitoring_records_change() {
    let mut m = MonitorController::new();
    let mut log = EventLog::new();
    m.set_monitoring(false, &mut log);
    assert!(!m.is_enabled());
    m.set_monitoring(true, &mut log);
    assert!(m.is_enabled());
    assert_eq!(log.recent(10), vec!["Monitoring enabled.".to_string(), "Monitoring disabled.".to_string()]);
}

#[test]
fn recent_events_most_recent_first() {
    let mut log = EventLog::new();
    for i in 0..5 {
        log.push(format!("e{}", i));
    }
    assert_eq!(log.recent(2), vec!["e4".to_string(), "e3".to_string()]);
    assert_eq!(log.recent(0), Vec::<String>::new());
    assert_eq!(log.recent(9).len(), 5);
    assert_eq!(log.recent(9)[4], "e0");
}

#[test]
fn termination_messages() {
    assert_eq!(termination_message(42, true), "Terminated process 42");
    assert_eq!(termination_message(7, false), "Could not terminate process 7");
}

#[test]
fn end_to_end_three_identical_samples() {
    let mut p = DefensePipeline::new();
    let m = MonitorController::new();
    let mut log = EventLog::new();
    let text = r#"{"cpu":50,"network":"75 MB/s","memory":10}"#;
    let mut findings = Vec::new();
    for _ in 0..3 {
        let s = sample_from_json(text);
        findings.extend(p.ingest(&s, &m, &mut log));
    }
    assert_eq!(findings.len(), 1);
    assert_eq!(findings[0].kind, FindingKind::NetworkSpike);
    assert_eq!(log.len(), 1);
    assert!(log.recent(1)[0].contains("[75, 75, 75]"));
    let procs = vec![process(5, "attack-sim", 2500, 1), process(6, "chrome", 9900, 1)];
    let victims = plan_mitigation(&findings[0], &procs);
    assert_eq!(victims, vec![5]);
    for pid in victims {
        log.push(termination_message(pid, true));
    }
    assert_eq!(log.len(), 2);
    assert_eq!(log.recent(1)[0], "Terminated process 5");
}

#[test]
fn memory_and_network_findings_in_one_sample() {
    let mut p = DefensePipeline::new();
    let m = MonitorController::new();
    let mut log = EventLog::new();
    let mems = [10u32, 15, 20, 30];
    let mut last = Vec::new();
    for mem in mems {
        let s = Sample { cpu: 95, network: "80 MB/s".to_string(), memory: mem };
        last = p.ingest(&s, &m, &mut log);
    }
    let kinds: Vec<FindingKind> = last.iter().map(|f| f.kind).collect();
    assert_eq!(
        kinds,
        vec![FindingKind::NetworkSpike, FindingKind::MemoryGrowth, FindingKind::CpuSaturation]
    );
    assert_eq!(log.len(), 1 + 1 + 2 + 3);
    assert_eq!(log.recent(1)[0], "CPU spike detected: current use 95%");
}

use vstd::prelude::*;
use crate::text::{append_decimal, append_list, decimal_text, list_text, parse_network_rate, rate_of};
use crate::window::{pushed, RollingWindow};

verus! {

/// The kind of anomaly a detector found.
#[derive(Clone, Copy, Debug, PartialEq, Eq, Structural)]
pub enum FindingKind {
    NetworkSpike,
    MemoryGrowth,
    CpuSaturation,
}

/// Which processes a name-filtered mitigation may terminate: those whose CPU load
/// (in hundredths of a percent) or memory (in MB) exceeds these limits.
#[derive(Clone, Copy, Debug, PartialEq, Eq, Structural)]
pub struct MitigationPolicy {
    pub cpu_threshold_centi: u32,
    pub memory_threshold_mb: u64,
}

/// The thresholds of the detectors.
#[derive(Clone, Copy, Debug, PartialEq, Eq, Structural)]
pub struct DetectorConfig {
    /// How many recent samples each window keeps.
    pub window: usize,
    /// A network rate above this many MB/s counts as a spike.
    pub spike_rate_mb: u32,
    /// This many spikes in the window signal a flood.
    pub spike_count: usize,
    /// Memory growth is judged once the window holds this many samples.
    pub growth_min_samples: usize,
    /// A summed rise of at least this much over the window signals a leak.
    pub growth_total: u64,
    /// A single rise above this size counts as a large jump.
    pub jump_size: u32,
    /// This many large jumps in the window signal a leak.
    pub jump_count: usize,
    /// A CPU load above this percentage is saturation.
    pub cpu_limit: u32,
    /// The mitigation attached to a flood.
    pub spike_policy: MitigationPolicy,
    /// The mitigation attached to a leak.
    pub growth_policy: MitigationPolicy,
}

/// The standard thresholds: windows of five; a flood is three rates above 70 MB/s;
/// a leak, once four samples are known, is a summed rise of 20 or two rises above 10;
/// saturation is a load above 90%.
pub open spec fn standard_config() -> DetectorConfig {
    DetectorConfig {
        window: 5,
        spike_rate_mb: 70,
        spike_count: 3,
        growth_min_samples: 4,
        growth_total: 20,
        jump_size: 10,
        jump_count: 2,
        cpu_limit: 90,
        spike_policy: MitigationPolicy { cpu_threshold_centi: 2000, memory_threshold_mb: 50 },
        growth_policy: MitigationPolicy { cpu_threshold_centi: 1000, memory_threshold_mb: 100 },
    }
}

impl DetectorConfig {
    /// The standard thresholds.
    pub fn standard() -> (r: Self)
        ensures
            r == standard_config(),
    {
        DetectorConfig {
            window: 5,
            spike_rate_mb: 70,
            spike_count: 3,
            growth_min_samples: 4,
            growth_total: 20,
            jump_size: 10,
            jump_count: 2,
            cpu_limit: 90,
            spike_policy: MitigationPolicy { cpu_threshold_centi: 2000, memory_threshold_mb: 50 },
            growth_policy: MitigationPolicy { cpu_threshold_centi: 1000, memory_threshold_mb: 100 },
        }
    }
}

/// A detector's verdict that the recent samples are anomalous.
pub struct Finding {
    pub kind: FindingKind,
    pub message: String,
    /// Present for the name-filtered mitigation; absent for CPU saturation, whose
    /// mitigation picks the busiest process whatever its name.
    pub mitigation: Option<MitigationPolicy>,
}

/// The mathematical content of a `Finding`.
pub ghost struct FindingView {
    pub kind: FindingKind,
    pub message: Seq<char>,
    pub mitigation: Option<MitigationPolicy>,
}

impl View for Finding {
    type V = FindingView;

    open spec fn view(&self) -> FindingView {
        FindingView { kind: self.kind, message: self.message@, mitigation: self.mitigation }
    }
}

/// The view of an optional finding.
pub open spec fn opt_view(r: Option<Finding>) -> Option<FindingView> {
    match r {
        Some(f) => Some(f@),
        None => None,
    }
}

/// How many values of `w` exceed `limit`.
pub open spec fn count_over(w: Seq<u32>, limit: u32) -> nat
    decreases w.len(),
{
    if w.len() == 0 {
        0
    } else {
        count_over(w.drop_last(), limit) + if w.last() > limit { 1nat } else { 0nat }
    }
}

/// The rise from `a` to `b`; a drop counts as zero.
pub open spec fn rise(a: u32, b: u32) -> nat {
    if b > a { (b - a) as nat } else { 0 }
}

/// The sum of the rises between consecutive values of `w`.
pub open spec fn total_increase(w: Seq<u32>) -> nat
    decreases w.len(),
{
    if w.len() < 2 {
        0
    } else {
        total_increase(w.drop_last()) + rise(w[w.len() - 2], w.last())
    }
}

/// The number of consecutive pairs of `w` whose rise exceeds `jump`.
pub open spec fn large_jumps(w: Seq<u32>, jump: u32) -> nat
    decreases w.len(),
{
    if w.len() < 2 {
        0
    } else {
        large_jumps(w.drop_last(), jump) + if rise(w[w.len() - 2], w.last()) > jump {
            1nat
        } else {
            0nat
        }
    }
}

/// The log line of a flood found in window `w`.
pub open spec fn network_message(c: DetectorConfig, w: Seq<u32>) -> Seq<char> {
    "Possible DDoS detected: "@ + decimal_text(c.spike_count as nat) + "+ spikes above "@
        + decimal_text(c.spike_rate_mb as nat) + " MB/s in recent window "@ + list_text(w)
}

/// The log line of memory growth found in window `w`.
pub open spec fn memory_message(w: Seq<u32>) -> Seq<char> {
    "Possible memory leak: RAM use rose "@ + decimal_text(total_increase(w)) + "% in recent window "@
        + list_text(w)
}

/// The log line of a CPU load `cpu` above the limit.
pub open spec fn cpu_message(cpu: u32) -> Seq<char> {
    "CPU spike detected: current use "@ + decimal_text(cpu as nat) + "%"@
}

/// What the network detector reports once its window is `w`.
pub open spec fn network_verdict(c: DetectorConfig, w: Seq<u32>) -> Option<FindingView> {
    if count_over(w, c.spike_rate_mb) >= c.spike_count {
        Some(
            FindingView {
                kind: FindingKind::NetworkSpike,
                message: network_message(c, w),
                mitigation: Some(c.spike_policy),
            },
        )
    } else {
        None
    }
}

/// Whether the memory window `w` shows growth.
pub open spec fn memory_grows(c: DetectorConfig, w: Seq<u32>) -> bool {
    w.len() >= c.growth_min_samples && (total_increase(w) >= c.growth_total || large_jumps(
        w,
        c.jump_size,
    ) >= c.jump_count)
}

/// What the memory detector reports once its window is `w`.
pub open spec fn memory_verdict(c: DetectorConfig, w: Seq<u32>) -> Option<FindingView> {
    if memory_grows(c, w) {
        Some(
            FindingView {
                kind: FindingKind::MemoryGrowth,
                message: memory_message(w),
                mitigation: Some(c.growth_policy),
            },
        )
    } else {
        None
    }
}

/// What the CPU detector reports for a sample with load `cpu`.
pub open spec fn cpu_verdict(c: DetectorConfig, cpu: u32) -> Option<FindingView> {
    if cpu > c.cpu_limit {
        Some(
            FindingView {
                kind: FindingKind::CpuSaturation,
                message: cpu_message(cpu),
                mitigation: None,
            },
        )
    } else {
        None
    }
}

proof fn lemma_total_bound(w: Seq<u32>)
    ensures
        total_increase(w) <= w.len() * 0xFFFF_FFFF,
    decreases w.len(),
{
    if w.len() >= 2 {
        lemma_total_bound(w.drop_last());
        let n = w.len();
        assert((n - 1) * 0xFFFF_FFFF + 0xFFFF_FFFF == n * 0xFFFF_FFFF) by (nonlinear_arith);
    }
}

/// The number of values of `w` above `limit`.
pub fn count_above(w: &Vec<u32>, limit: u32) -> (r: usize)
    ensures
        r == count_over(w@, limit),
{
    let mut n: usize = 0;
    let mut i: usize = 0;
    while i < w.len()
        invariant
            i <= w@.len(),
            n == count_over(w@.subrange(0, i as int), limit),
            n <= i,
        decreases w@.len() - i,
    {
        assert(w@.subrange(0, i + 1).drop_last() =~= w@.subrange(0, i as int));
        if w[i] > limit {
            n = n + 1;
        }
        i = i + 1;
    }
    assert(w@.subrange(0, w@.len() as int) =~= w@);
    n
}

/// The summed rise and the number of rises above `jump` over consecutive values of `w`.
pub fn growth_of(w: &Vec<u32>, jump: u32) -> (r: (u128, usize))
    ensures
        r.0 == total_increase(w@),
        r.1 == large_jumps(w@, jump),
{
    let mut total: u128 = 0;
    let mut jumps: usize = 0;
    if w.len() < 2 {
        return (0, 0);
    }
    let n = w.len();
    let mut i: usize = 1;
    while i < n
        invariant
            1 <= i <= n,
            n == w@.len(),
            total == total_increase(w@.subrange(0, i as int)),
            jumps == large_jumps(w@.subrange(0, i as int), jump),
            jumps <= i,
        decreases n - i,
    {
        let ghost next = w@.subrange(0, i + 1);
        assert(next.drop_last() =~= w@.subrange(0, i as int));
        proof {
            lemma_total_bound(next);
            assert(next.len() * 0xFFFF_FFFF <= 0xFFFF_FFFF_FFFF_FFFF * 0xFFFF_FFFF) by (
            nonlinear_arith)
                requires
                    next.len() <= 0xFFFF_FFFF_FFFF_FFFF,
            ;
        }
        let a = w[i - 1];
        let b = w[i];
        if b > a {
            let d = b - a;
            total = total + d as u128;
            if d > jump {
                jumps = jumps + 1;
            }
        }
        i = i + 1;
    }
    assert(w@.subrange(0, n as int) =~= w@);
    (total, jumps)
}

/// Whether `c` describes usable windows.
pub open spec fn config_ok(c: DetectorConfig) -> bool {
    c.window > 0
}

/// Flags sustained flooding: enough rates above the spike rate among the recent ones.
pub struct NetworkSpikeDetector {
    window: RollingWindow<u32>,
    config: DetectorConfig,
}

impl NetworkSpikeDetector {
    /// The values in the window, oldest first.
    pub closed spec fn view(&self) -> Seq<u32> {
        self.window@
    }

    pub closed spec fn config(&self) -> DetectorConfig {
        self.config
    }

    pub closed spec fn wf(&self) -> bool {
        self.window.wf() && self.window.cap() == self.config.window
    }

    /// A detector with the standard thresholds and an empty window.
    pub fn new() -> (r: Self)
        ensures
            r.wf(),
            r@ == Seq::<u32>::empty(),
            r.config() == standard_config(),
    {
        Self::with_config(DetectorConfig::standard())
    }

    /// A detector with the thresholds of `config` and an empty window.
    pub fn with_config(config: DetectorConfig) -> (r: Self)
        requires
            config_ok(config),
        ensures
            r.wf(),
            r@ == Seq::<u32>::empty(),
            r.config() == config,
    {
        NetworkSpikeDetector { window: RollingWindow::with_capacity(config.window), config }
    }

    /// The rates currently in the window, oldest first.
    pub fn snapshot(&self) -> (r: Vec<u32>)
        ensures
            r@ == self@,
    {
        self.window.snapshot()
    }

    /// Folds a parsed rate (MB/s) into the window and judges the new window.
    pub fn observe_rate(&mut self, rate: u32) -> (r: Option<Finding>)
        requires
            old(self).wf(),
        ensures
            final(self).wf(),
            final(self).config() == old(self).config(),
            final(self)@ == pushed(old(self)@, rate, old(self).config().window as nat),
            opt_view(r) == network_verdict(old(self).config(), final(self)@),
    {
        self.window.push(rate);
        let w = self.window.snapshot();
        if count_above(&w, self.config.spike_rate_mb) >= self.config.spike_count {
            let mut message = String::new();
            message.append("Possible DDoS detected: ");
            append_decimal(&mut message, self.config.spike_count as u128);
            message.append("+ spikes above ");
            append_decimal(&mut message, self.config.spike_rate_mb as u128);
            message.append(" MB/s in recent window ");
            append_list(&mut message, &w);
            Some(
                Finding {
                    kind: FindingKind::NetworkSpike,
                    message,
                    mitigation: Some(self.config.spike_policy),
                },
            )
        } else {
            None
        }
    }

    /// Reads a network field written `"<number> MB/s"` and folds it in; a field of any
    /// other form is ignored and leaves the window unchanged.
    pub fn observe(&mut self, network: &str) -> (r: Option<Finding>)
        requires
            old(self).wf(),
        ensures
            final(self).wf(),
            final(self).config() == old(self).config(),
            match rate_of(network@) {
                None => final(self)@ == old(self)@ && r.is_none(),
                Some(v) => final(self)@ == pushed(old(self)@, v, old(self).config().window as nat)
                    && opt_view(r) == network_verdict(old(self).config(), final(self)@),
            },
    {
        match parse_network_rate(network) {
            None => None,
            Some(v) => self.observe_rate(v),
        }
    }
}

/// Flags memory growth over the recent samples, once enough of them are known.
pub struct MemoryGrowthDetector {
    window: RollingWindow<u32>,
    config: DetectorConfig,
}

impl MemoryGrowthDetector {
    /// The values in the window, oldest first.
    pub closed spec fn view(&self) -> Seq<u32> {
        self.window@
    }

    pub closed spec fn config(&self) -> DetectorConfig {
        self.config
    }

    pub closed spec fn wf(&self) -> bool {
        self.window.wf() && self.window.cap() == self.config.window
    }

    /// A detector with the standard thresholds and an empty window.
    pub fn new() -> (r: Self)
        ensures
            r.wf(),
            r@ == Seq::<u32>::empty(),
            r.config() == standard_config(),
    {
        Self::with_config(DetectorConfig::standard())
    }

    /// A detector with the thresholds of `config` and an empty window.
    pub fn with_config(config: DetectorConfig) -> (r: Self)
        requires
            config_ok(config),
        ensures
            r.wf(),
            r@ == Seq::<u32>::empty(),
            r.config() == config,
    {
        MemoryGrowthDetector { window: RollingWindow::with_capacity(config.window), config }
    }

    /// The memory values currently in the window, oldest first.
    pub fn snapshot(&self) -> (r: Vec<u32>)
        ensures
            r@ == self@,
    {
        self.window.snapshot()
    }

    /// Folds a memory sample into the window and judges the new window.
    pub fn observe(&mut self, memory: u32) -> (r: Option<Finding>)
        requires
            old(self).wf(),
        ensures
            final(self).wf(),
            final(self).config() == old(self).config(),
            final(self)@ == pushed(old(self)@, memory, old(self).config().window as nat),
            opt_view(r) == memory_verdict(old(self).config(), final(self)@),
    {
        self.window.push(memory);
        let w = self.window.snapshot();
        if w.len() < self.config.growth_min_samples {
            return None;
        }
        let (total, jumps) = growth_of(&w, self.config.jump_size);
        if total >= self.config.growth_total as u128 || jumps >= self.config.jump_count {
            let mut message = String::new();
            message.append("Possible memory leak: RAM use rose ");
            append_decimal(&mut message, total);
            message.append("% in recent window ");
            append_list(&mut message, &w);
            Some(
                Finding {
                    kind: FindingKind::MemoryGrowth,
                    message,
                    mitigation: Some(self.config.growth_policy),
                },
            )
        } else {
            None
        }
    }
}

/// Flags a single sample whose CPU load exceeds the limit; it keeps no history.
pub struct CpuSaturationDetector {
    config: DetectorConfig,
}

impl CpuSaturationDetector {
    pub closed spec fn config(&self) -> DetectorConfig {
        self.config
    }

    /// A detector with the standard limit.
    pub fn new() -> (r: Self)
        ensures
            r.config() == standard_config(),
    {
        Self::with_config(DetectorConfig::standard())
    }

    /// A detector with the limit of `config`.
    pub fn with_config(config: DetectorConfig) -> (r: Self)
        ensures
            r.config() == config,
    {
        CpuSaturationDetector { config }
    }

    /// Judges one CPU sample.
    pub fn observe(&self, cpu: u32) -> (r: Option<Finding>)
        ensures
            opt_view(r) == cpu_verdict(self.config(), cpu),
    {
        if cpu > self.config.cpu_limit {
            let mut message = String::new();
            message.append("CPU spike detected: current use ");
            append_decimal(&mut message, cpu as u128);
            message.append("%");
            Some(Finding { kind: FindingKind::CpuSaturation, message, mitigation: None })
        } else {
            None
        }
    }
}

} // verus!

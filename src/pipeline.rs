use vstd::prelude::*;
use crate::detect::{
    config_ok, cpu_verdict, memory_verdict, network_verdict, opt_view, standard_config,
    CpuSaturationDetector, DetectorConfig, Finding, FindingView, MemoryGrowthDetector,
    NetworkSpikeDetector,
};
use crate::event_log::EventLog;
use crate::monitor::MonitorController;
use crate::text::rate_of;
use crate::window::pushed;

verus! {

/// One telemetry reading: CPU load (%), network rate as text (`"<number> MB/s"`),
/// memory use (%).
pub struct Sample {
    pub cpu: u32,
    pub network: String,
    pub memory: u32,
}

/// The state of the detectors: their thresholds and the network and memory windows.
pub ghost struct PipelineView {
    pub config: DetectorConfig,
    pub network: Seq<u32>,
    pub memory: Seq<u32>,
}

/// The windows after folding `s` into `st`. A network field that does not parse
/// leaves the network window as it was.
pub open spec fn step(st: PipelineView, s: Sample) -> PipelineView {
    PipelineView {
        config: st.config,
        network: match rate_of(s.network@) {
            Some(v) => pushed(st.network, v, st.config.window as nat),
            None => st.network,
        },
        memory: pushed(st.memory, s.memory, st.config.window as nat),
    }
}

/// An optional value as a sequence of zero or one elements.
pub open spec fn opt_seq(o: Option<FindingView>) -> Seq<FindingView> {
    match o {
        Some(f) => seq![f],
        None => Seq::empty(),
    }
}

/// The findings, network then memory then CPU, that folding `s` into `st` produces.
pub open spec fn step_findings(st: PipelineView, s: Sample) -> Seq<FindingView> {
    let after = step(st, s);
    let net = match rate_of(s.network@) {
        Some(_) => network_verdict(st.config, after.network),
        None => None,
    };
    opt_seq(net) + opt_seq(memory_verdict(st.config, after.memory)) + opt_seq(
        cpu_verdict(st.config, s.cpu),
    )
}

/// The views of a sequence of findings.
pub open spec fn findings_view(fs: Seq<Finding>) -> Seq<FindingView> {
    fs.map_values(|f: Finding| f@)
}

/// The log lines of a sequence of findings.
pub open spec fn messages_of(fs: Seq<FindingView>) -> Seq<Seq<char>> {
    fs.map_values(|f: FindingView| f.message)
}

/// The windows after folding every sample of `samples` into `st`, in order.
pub open spec fn run(st: PipelineView, samples: Seq<Sample>) -> PipelineView
    decreases samples.len(),
{
    if samples.len() == 0 {
        st
    } else {
        step(run(st, samples.drop_last()), samples.last())
    }
}

/// The windows after offering each sample of `samples` to the pipeline while
/// monitoring was as `enabled` says at its arrival.
pub open spec fn run_gated(st: PipelineView, samples: Seq<Sample>, enabled: Seq<bool>) -> PipelineView
    decreases samples.len(),
{
    if samples.len() == 0 || enabled.len() == 0 {
        st
    } else {
        let prev = run_gated(st, samples.drop_last(), enabled.drop_last());
        if enabled.last() {
            step(prev, samples.last())
        } else {
            prev
        }
    }
}

/// The samples of `samples` that arrived while monitoring was enabled.
pub open spec fn admitted(samples: Seq<Sample>, enabled: Seq<bool>) -> Seq<Sample>
    decreases samples.len(),
{
    if samples.len() == 0 || enabled.len() == 0 {
        Seq::empty()
    } else {
        let prev = admitted(samples.drop_last(), enabled.drop_last());
        if enabled.last() {
            prev.push(samples.last())
        } else {
            prev
        }
    }
}

/// Samples offered while monitoring is paused leave no trace: whatever the pattern
/// of pauses, the detectors end in the state they would reach from the samples that
/// arrived while monitoring was enabled alone. In particular a run that is paused
/// throughout changes nothing.
pub proof fn paused_samples_leave_no_trace(
    st: PipelineView,
    samples: Seq<Sample>,
    enabled: Seq<bool>,
)
    requires
        samples.len() == enabled.len(),
    ensures
        run_gated(st, samples, enabled) == run(st, admitted(samples, enabled)),
        (forall|i: int| 0 <= i < enabled.len() ==> !#[trigger] enabled[i]) ==> run_gated(
            st,
            samples,
            enabled,
        ) == st,
    decreases samples.len(),
{
    if samples.len() > 0 {
        paused_samples_leave_no_trace(st, samples.drop_last(), enabled.drop_last());
        let prev = admitted(samples.drop_last(), enabled.drop_last());
        if enabled.last() {
            assert(prev.push(samples.last()).drop_last() =~= prev);
        }
        if forall|i: int| 0 <= i < enabled.len() ==> !#[trigger] enabled[i] {
            assert(!enabled[enabled.len() - 1]);
            assert forall|i: int| 0 <= i < enabled.drop_last().len() implies !#[trigger] enabled.drop_last()[i] by {
                assert(!enabled[i]);
            }
        }
    }
}

/// The three detectors fed from one stream of samples.
pub struct DefensePipeline {
    network: NetworkSpikeDetector,
    memory: MemoryGrowthDetector,
    cpu: CpuSaturationDetector,
}

impl DefensePipeline {
    pub closed spec fn view(&self) -> PipelineView {
        PipelineView {
            config: self.network.config(),
            network: self.network@,
            memory: self.memory@,
        }
    }

    pub closed spec fn wf(&self) -> bool {
        &&& self.network.wf()
        &&& self.memory.wf()
        &&& self.memory.config() == self.network.config()
        &&& self.cpu.config() == self.network.config()
    }

    /// Detectors with the standard thresholds and empty windows.
    pub fn new() -> (r: Self)
        ensures
            r.wf(),
            r@ == (PipelineView {
                config: standard_config(),
                network: Seq::empty(),
                memory: Seq::empty(),
            }),
    {
        Self::with_config(DetectorConfig::standard())
    }

    /// Detectors with the thresholds of `config` and empty windows.
    pub fn with_config(config: DetectorConfig) -> (r: Self)
        requires
            config_ok(config),
        ensures
            r.wf(),
            r@ == (PipelineView { config, network: Seq::empty(), memory: Seq::empty() }),
    {
        DefensePipeline {
            network: NetworkSpikeDetector::with_config(config),
            memory: MemoryGrowthDetector::with_config(config),
            cpu: CpuSaturationDetector::with_config(config),
        }
    }

    /// The network rates in the window, oldest first.
    pub fn network_window(&self) -> (r: Vec<u32>)
        ensures
            r@ == self@.network,
    {
        self.network.snapshot()
    }

    /// The memory values in the window, oldest first.
    pub fn memory_window(&self) -> (r: Vec<u32>)
        ensures
            r@ == self@.memory,
    {
        self.memory.snapshot()
    }

    /// Offers one sample. While monitoring is enabled the sample is folded into the
    /// windows, and each finding is returned and its message appended to `log`;
    /// while it is paused the sample is dropped and nothing changes.
    pub fn ingest(&mut self, sample: &Sample, monitor: &MonitorController, log: &mut EventLog) -> (r:
        Vec<Finding>)
        requires
            old(self).wf(),
        ensures
            final(self).wf(),
            monitor.enabled() ==> final(self)@ == step(old(self)@, *sample) && findings_view(r@)
                == step_findings(old(self)@, *sample) && final(log)@ == old(log)@ + messages_of(
                step_findings(old(self)@, *sample),
            ),
            !monitor.enabled() ==> final(self)@ == old(self)@ && r@.len() == 0 && final(log)@
                == old(log)@,
    {
        let mut out: Vec<Finding> = Vec::new();
        if !monitor.is_enabled() {
            return out;
        }
        let ghost st = self@;
        let ghost after = step(st, *sample);
        let ghost log0 = log@;
        let net = self.network.observe(sample.network.as_str());
        let ghost net_v = opt_view(net);
        assert(net_v == match rate_of(sample.network@) {
            Some(_) => network_verdict(st.config, after.network),
            None => None,
        });
        match net {
            Some(f) => {
                log.push(f.message.clone());
                out.push(f);
            },
            None => {},
        }
        assert(findings_view(out@) =~= opt_seq(net_v));
        assert(log@ =~= log0 + messages_of(opt_seq(net_v)));
        let mem = self.memory.observe(sample.memory);
        let ghost mem_v = opt_view(mem);
        let ghost out1 = out@;
        let ghost log1 = log@;
        match mem {
            Some(f) => {
                log.push(f.message.clone());
                out.push(f);
            },
            None => {},
        }
        assert(findings_view(out@) =~= findings_view(out1) + opt_seq(mem_v));
        assert(log@ =~= log1 + messages_of(opt_seq(mem_v)));
        let cpu = self.cpu.observe(sample.cpu);
        let ghost cpu_v = opt_view(cpu);
        let ghost out2 = out@;
        let ghost log2 = log@;
        match cpu {
            Some(f) => {
                log.push(f.message.clone());
                out.push(f);
            },
            None => {},
        }
        assert(findings_view(out@) =~= findings_view(out2) + opt_seq(cpu_v));
        assert(log@ =~= log2 + messages_of(opt_seq(cpu_v)));
        assert(findings_view(out@) =~= step_findings(st, *sample));
        assert(log@ =~= log0 + messages_of(step_findings(st, *sample)));
        out
    }
}

} // verus!

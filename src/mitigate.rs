use vstd::prelude::*;
use crate::detect::{Finding, FindingKind, FindingView, MitigationPolicy};
use crate::text::{append_decimal, chars_of, contains_seq, decimal_text, seq_contains};

verus! {

/// A CPU load above this many hundredths of a percent marks a process for the
/// saturation mitigation.
pub const BUSY_CPU_CENTI: u32 = 9000;

/// One running process as the process directory reports it.
pub struct ProcessInfo {
    pub pid: u32,
    pub name: String,
    /// CPU load in hundredths of a percent, rounded up.
    pub cpu_centi: u32,
    pub memory_mb: u64,
}

/// Whether a process name carries one of the tokens that mark a simulated or
/// attacking workload (case-sensitive).
pub open spec fn suspicious_name(name: Seq<char>) -> bool {
    contains_seq(name, seq!['a', 't', 'a', 'q', 'u', 'e'])
        || contains_seq(name, seq!['s', 'i', 'm', 'u', 'l', 'a', 'd', 'o', 'r'])
        || contains_seq(name, seq!['m', 'a', 'l', 'i', 'c', 'i', 'o', 's', 'o'])
        || contains_seq(name, seq!['a', 't', 't', 'a', 'c', 'k'])
        || contains_seq(name, seq!['s', 'i', 'm', 'u', 'l', 'a', 't', 'o', 'r'])
        || contains_seq(name, seq!['m', 'a', 'l', 'i', 'c', 'i', 'o', 'u', 's'])
}

/// Whether the process's usage exceeds either limit of `policy`.
pub open spec fn over_policy(p: ProcessInfo, policy: MitigationPolicy) -> bool {
    p.cpu_centi > policy.cpu_threshold_centi || p.memory_mb > policy.memory_threshold_mb
}

/// Whether the name-filtered mitigation terminates `p`.
pub open spec fn name_filtered_match(p: ProcessInfo, policy: MitigationPolicy) -> bool {
    over_policy(p, policy) && suspicious_name(p.name@)
}

/// The ids of the processes of `ps` that the name-filtered mitigation terminates,
/// in the order listed.
pub open spec fn name_filtered_targets(ps: Seq<ProcessInfo>, policy: MitigationPolicy) -> Seq<
    u32,
>
    decreases ps.len(),
{
    if ps.len() == 0 {
        Seq::empty()
    } else {
        let prev = name_filtered_targets(ps.drop_last(), policy);
        if name_filtered_match(ps.last(), policy) {
            prev.push(ps.last().pid)
        } else {
            prev
        }
    }
}

/// Whether `ps[i]` is the process the saturation mitigation picks: above 90% CPU, no
/// process busier, and none as busy before it.
pub open spec fn is_busiest(ps: Seq<ProcessInfo>, i: int) -> bool {
    0 <= i < ps.len() && ps[i].cpu_centi > BUSY_CPU_CENTI && (forall|j: int|
        0 <= j < ps.len() ==> #[trigger] ps[j].cpu_centi <= ps[i].cpu_centi) && (forall|j: int|
        0 <= j < i ==> #[trigger] ps[j].cpu_centi < ps[i].cpu_centi)
}

/// Whether any process of `ps` is above 90% CPU.
pub open spec fn any_busy(ps: Seq<ProcessInfo>) -> bool {
    exists|i: int| 0 <= i < ps.len() && #[trigger] ps[i].cpu_centi > BUSY_CPU_CENTI
}

/// The id of the process the saturation mitigation picks, if any is above 90% CPU.
pub open spec fn busiest_pid(ps: Seq<ProcessInfo>) -> Option<u32> {
    if any_busy(ps) {
        Some(ps[choose|i: int| is_busiest(ps, i)].pid)
    } else {
        None
    }
}

/// The processes that a finding with this view says to terminate: for CPU
/// saturation the busiest process above 90% CPU, whatever its name; for the other
/// kinds the name-filtered selection under the finding's policy (none without one).
pub open spec fn targets_of(f: FindingView, ps: Seq<ProcessInfo>) -> Seq<u32> {
    match f.kind {
        FindingKind::CpuSaturation => match busiest_pid(ps) {
            Some(pid) => seq![pid],
            None => Seq::empty(),
        },
        _ => match f.mitigation {
            Some(policy) => name_filtered_targets(ps, policy),
            None => Seq::empty(),
        },
    }
}

/// At most one process is the one the saturation mitigation picks.
pub proof fn lemma_busiest_unique(ps: Seq<ProcessInfo>, i: int, k: int)
    requires
        is_busiest(ps, i),
        is_busiest(ps, k),
    ensures
        i == k,
{
    if i < k {
        assert(ps[i].cpu_centi < ps[k].cpu_centi);
        assert(ps[k].cpu_centi <= ps[i].cpu_centi);
    } else if k < i {
        assert(ps[k].cpu_centi < ps[i].cpu_centi);
        assert(ps[i].cpu_centi <= ps[k].cpu_centi);
    }
}

/// Whether `name` carries a token of a simulated or attacking workload.
pub fn is_suspicious_name(name: &str) -> (r: bool)
    ensures
        r == suspicious_name(name@),
{
    let cs = chars_of(name);
    seq_contains(&cs, &vec!['a', 't', 'a', 'q', 'u', 'e'])
        || seq_contains(&cs, &vec!['s', 'i', 'm', 'u', 'l', 'a', 'd', 'o', 'r'])
        || seq_contains(&cs, &vec!['m', 'a', 'l', 'i', 'c', 'i', 'o', 's', 'o'])
        || seq_contains(&cs, &vec!['a', 't', 't', 'a', 'c', 'k'])
        || seq_contains(&cs, &vec!['s', 'i', 'm', 'u', 'l', 'a', 't', 'o', 'r'])
        || seq_contains(&cs, &vec!['m', 'a', 'l', 'i', 'c', 'i', 'o', 'u', 's'])
}

/// The ids of every listed process over either limit of `policy` whose name marks it
/// as a simulated or attacking workload; other busy processes are spared.
pub fn select_name_filtered(procs: &Vec<ProcessInfo>, policy: MitigationPolicy) -> (r: Vec<u32>)
    ensures
        r@ == name_filtered_targets(procs@, policy),
{
    let mut out: Vec<u32> = Vec::new();
    let mut i: usize = 0;
    while i < procs.len()
        invariant
            i <= procs@.len(),
            out@ == name_filtered_targets(procs@.subrange(0, i as int), policy),
        decreases procs@.len() - i,
    {
        let p = &procs[i];
        assert(procs@.subrange(0, i + 1).drop_last() =~= procs@.subrange(0, i as int));
        if (p.cpu_centi > policy.cpu_threshold_centi || p.memory_mb > policy.memory_threshold_mb)
            && is_suspicious_name(p.name.as_str()) {
            out.push(p.pid);
        }
        i = i + 1;
    }
    assert(procs@.subrange(0, procs@.len() as int) =~= procs@);
    out
}

/// The id of the busiest process above 90% CPU (the first listed among equals), or
/// `None` where no process is above 90%.
pub fn select_busiest(procs: &Vec<ProcessInfo>) -> (r: Option<u32>)
    ensures
        r.is_none() <==> !any_busy(procs@),
        r.is_some() ==> exists|i: int| is_busiest(procs@, i) && r == Some(procs@[i].pid),
        r == busiest_pid(procs@),
{
    let mut best: Option<usize> = None;
    let mut i: usize = 0;
    while i < procs.len()
        invariant
            i <= procs@.len(),
            best.is_none() ==> forall|j: int| 0 <= j < i ==> #[trigger] procs@[j].cpu_centi
                <= BUSY_CPU_CENTI,
            best.is_some() ==> {
                let b = best.unwrap() as int;
                &&& 0 <= b < i
                &&& procs@[b].cpu_centi > BUSY_CPU_CENTI
                &&& forall|j: int| 0 <= j < i ==> #[trigger] procs@[j].cpu_centi <= procs@[b].cpu_centi
                &&& forall|j: int| 0 <= j < b ==> #[trigger] procs@[j].cpu_centi < procs@[b].cpu_centi
            },
        decreases procs@.len() - i,
    {
        let c = procs[i].cpu_centi;
        match best {
            None => {
                if c > BUSY_CPU_CENTI {
                    best = Some(i);
                }
            },
            Some(b) => {
                if c > procs[b].cpu_centi {
                    best = Some(i);
                }
            },
        }
        i = i + 1;
    }
    match best {
        None => {
            assert(!any_busy(procs@)) by {
                assert forall|j: int| 0 <= j < procs@.len() implies !(#[trigger] procs@[j].cpu_centi
                    > BUSY_CPU_CENTI) by {
                    assert(procs@[j].cpu_centi <= BUSY_CPU_CENTI);
                }
            }
            None
        },
        Some(b) => {
            assert(is_busiest(procs@, b as int));
            assert(any_busy(procs@)) by {
                assert(procs@[b as int].cpu_centi > BUSY_CPU_CENTI);
            }
            let ghost k = choose|k: int| is_busiest(procs@, k);
            proof {
                lemma_busiest_unique(procs@, b as int, k);
            }
            Some(procs[b].pid)
        },
    }
}

/// The log line recording an attempt to terminate process `pid`.
pub open spec fn termination_text(pid: u32, terminated: bool) -> Seq<char> {
    if terminated {
        "Terminated process "@ + decimal_text(pid as nat)
    } else {
        "Could not terminate process "@ + decimal_text(pid as nat)
    }
}

/// The log line recording an attempt to terminate process `pid`, whether or not the
/// attempt succeeded.
pub fn termination_message(pid: u32, terminated: bool) -> (r: String)
    ensures
        r@ == termination_text(pid, terminated),
{
    let mut m = String::new();
    if terminated {
        m.append("Terminated process ");
    } else {
        m.append("Could not terminate process ");
    }
    append_decimal(&mut m, pid as u128);
    m
}

/// The ids of the processes to terminate for `finding`, chosen by its kind.
pub fn plan_mitigation(finding: &Finding, procs: &Vec<ProcessInfo>) -> (r: Vec<u32>)
    ensures
        r@ == targets_of(finding@, procs@),
{
    match finding.kind {
        FindingKind::CpuSaturation => match select_busiest(procs) {
            Some(pid) => vec![pid],
            None => {
                let r: Vec<u32> = Vec::new();
                assert(r@ =~= targets_of(finding@, procs@));
                r
            },
        },
        _ => match finding.mitigation {
            Some(policy) => select_name_filtered(procs, policy),
            None => {
                let r: Vec<u32> = Vec::new();
                assert(r@ =~= targets_of(finding@, procs@));
                r
            },
        },
    }
}

} // verus!

//! Waiting for a launched instance: a fixed-interval, bounded-time poll whose
//! decisions are taken here, while the caller sleeps and fetches.
use vstd::prelude::*;
use vstd::string::*;
use crate::api::Instance;
use crate::text::text_eq;

verus! {

/// When a polled instance counts as ready.
#[derive(Debug, Clone, Copy, PartialEq, Eq, Structural)]
pub enum ReadinessPolicy {
    /// Its status is `active`.
    StatusActive,
    /// It has an IP address, whatever its status.
    IpAssigned,
}

/// What one probe of the instance gave.
#[derive(Debug, Clone)]
pub enum Probe {
    /// The instance as the provider reported it.
    Observed(Instance),
    /// The probe failed; the provider may not know the instance yet.
    Failed(String),
}

/// How one probe bears on the wait.
#[derive(Debug, Clone, Copy, PartialEq, Eq, Structural)]
pub enum Decision {
    Ready,
    Failed,
    Pending,
}

/// What the caller does before the next probe.
#[derive(Debug, Clone, Copy, PartialEq, Eq, Structural)]
pub enum PollAction {
    /// Sleep this many seconds, then probe.
    Wait(u64),
    /// The time budget is spent; the instance may still be starting.
    GiveUp,
}

/// How the wait ended.
#[derive(Debug, Clone)]
pub enum PollOutcome {
    /// Ready after this many probes, with the IP address if it had one.
    Ready { ip: Option<String>, probes: usize },
    /// The instance entered a state it cannot leave, after this many probes.
    Failed { status: String, probes: usize },
    /// No probe decided; the instance may still be starting.
    StillStarting,
}

/// The reported status, or `unknown` when there is none.
pub open spec fn status_of(i: Instance) -> Seq<char> {
    match i.status {
        Some(s) => s@,
        None => "unknown"@,
    }
}

/// Statuses from which an instance never becomes ready.
pub open spec fn is_terminal(s: Seq<char>) -> bool {
    s == "terminated"@ || s == "unhealthy"@
}

/// How a probe bears on the wait under `policy`. A failed probe is transient.
pub open spec fn decision(policy: ReadinessPolicy, p: Probe) -> Decision {
    match p {
        Probe::Failed(_) => Decision::Pending,
        Probe::Observed(inst) => match policy {
            ReadinessPolicy::StatusActive => if status_of(inst) == "active"@ {
                Decision::Ready
            } else if is_terminal(status_of(inst)) {
                Decision::Failed
            } else {
                Decision::Pending
            },
            ReadinessPolicy::IpAssigned => if is_terminal(status_of(inst)) {
                Decision::Failed
            } else if inst.ip is Some {
                Decision::Ready
            } else {
                Decision::Pending
            },
        },
    }
}

/// The `n`-th probe is the first that decides.
pub open spec fn decided_at(policy: ReadinessPolicy, probes: Seq<Probe>, n: int) -> bool {
    &&& 1 <= n <= probes.len()
    &&& decision(policy, probes[n - 1]) != Decision::Pending
    &&& forall|j: int| 0 <= j < n - 1 ==> decision(policy, #[trigger] probes[j]) == Decision::Pending
}

/// No probe decides.
pub open spec fn undecided(policy: ReadinessPolicy, probes: Seq<Probe>) -> bool {
    forall|j: int| 0 <= j < probes.len() ==> decision(policy, #[trigger] probes[j]) == Decision::Pending
}

/// The status of an observed instance, or `unknown`.
pub fn status_text(inst: &Instance) -> (r: &str)
    ensures
        r@ == status_of(*inst),
{
    match &inst.status {
        Some(s) => s.as_str(),
        None => "unknown",
    }
}

fn terminal(s: &str) -> (r: bool)
    ensures
        r == is_terminal(s@),
{
    text_eq(s, "terminated") || text_eq(s, "unhealthy")
}

/// How `probe` bears on the wait under `policy`.
pub fn decide(policy: ReadinessPolicy, probe: &Probe) -> (r: Decision)
    ensures
        r == decision(policy, *probe),
{
    match probe {
        Probe::Failed(_) => Decision::Pending,
        Probe::Observed(inst) => {
            let status = status_text(inst);
            match policy {
                ReadinessPolicy::StatusActive => {
                    if text_eq(status, "active") {
                        Decision::Ready
                    } else if terminal(status) {
                        Decision::Failed
                    } else {
                        Decision::Pending
                    }
                },
                ReadinessPolicy::IpAssigned => {
                    if terminal(status) {
                        Decision::Failed
                    } else if inst.ip.is_some() {
                        Decision::Ready
                    } else {
                        Decision::Pending
                    }
                },
            }
        },
    }
}

fn opt_clone(o: &Option<String>) -> (r: Option<String>)
    ensures
        match (r, *o) {
            (Some(a), Some(b)) => a@ == b@,
            (None, None) => true,
            _ => false,
        },
{
    match o {
        Some(s) => Some(s.clone()),
        None => None,
    }
}

/// The outcome that a deciding probe gives after `n` probes.
pub open spec fn outcome_matches(policy: ReadinessPolicy, p: Probe, n: int, r: PollOutcome) -> bool {
    match r {
        PollOutcome::Ready { ip, probes } => probes == n && decision(policy, p) == Decision::Ready
            && p is Observed && match (ip, p->Observed_0.ip) {
            (Some(a), Some(b)) => a@ == b@,
            (None, None) => true,
            _ => false,
        },
        PollOutcome::Failed { status, probes } => probes == n && decision(policy, p)
            == Decision::Failed && p is Observed && status@ == status_of(p->Observed_0),
        PollOutcome::StillStarting => false,
    }
}

/// The outcome that `probe`, the `n`-th, gives: none while it is pending.
pub fn conclude(policy: ReadinessPolicy, probe: &Probe, n: usize) -> (r: PollOutcome)
    ensures
        decision(policy, *probe) == Decision::Pending ==> r is StillStarting,
        decision(policy, *probe) != Decision::Pending ==> outcome_matches(policy, *probe, n as int, r),
{
    let d = decide(policy, probe);
    match probe {
        Probe::Observed(inst) => {
            if d == Decision::Ready {
                PollOutcome::Ready { ip: opt_clone(&inst.ip), probes: n }
            } else if d == Decision::Failed {
                PollOutcome::Failed { status: String::from_str(status_text(inst)), probes: n }
            } else {
                PollOutcome::StillStarting
            }
        },
        Probe::Failed(_) => PollOutcome::StillStarting,
    }
}

/// The outcome of a wait whose probes, in order, gave `probes`: the first
/// probe that decides ends it; if none does, the instance may still be
/// starting.
pub fn run_probes(policy: ReadinessPolicy, probes: &Vec<Probe>) -> (r: PollOutcome)
    ensures
        r is StillStarting <==> undecided(policy, probes@),
        !(r is StillStarting) ==> exists|n: int|
            decided_at(policy, probes@, n) && outcome_matches(
                policy,
                #[trigger] probes@[n - 1],
                n,
                r,
            ),
{
    let mut i: usize = 0;
    while i < probes.len()
        invariant
            i <= probes@.len(),
            forall|j: int| 0 <= j < i ==> decision(policy, #[trigger] probes@[j]) == Decision::Pending,
        decreases probes@.len() - i,
    {
        let d = decide(policy, &probes[i]);
        if d != Decision::Pending {
            let r = conclude(policy, &probes[i], i + 1);
            assert(decided_at(policy, probes@, i as int + 1));
            return r;
        }
        i = i + 1;
    }
    PollOutcome::StillStarting
}

/// A terminal status reached before readiness ends the wait with a failure
/// at that probe, never with a timeout, whichever policy is used.
pub proof fn lemma_terminal_before_ready_fails(
    policy: ReadinessPolicy,
    probes: Seq<Probe>,
    i: int,
)
    requires
        0 <= i < probes.len(),
        probes[i] is Observed,
        is_terminal(status_of(probes[i]->Observed_0)),
        forall|j: int| 0 <= j < i ==> decision(policy, #[trigger] probes[j]) == Decision::Pending,
    ensures
        decision(policy, probes[i]) == Decision::Failed,
        decided_at(policy, probes, i + 1),
        !undecided(policy, probes),
        forall|n: int| decided_at(policy, probes, n) ==> n == i + 1,
{
    assert(status_of(probes[i]->Observed_0) != "active"@) by {
        reveal_strlit("active");
        reveal_strlit("terminated");
        reveal_strlit("unhealthy");
        assert("active"@.len() == 6 && "terminated"@.len() == 10 && "unhealthy"@.len() == 9);
    }
    assert forall|n: int| decided_at(policy, probes, n) implies n == i + 1 by {
        if n < i + 1 {
            assert(decision(policy, probes[n - 1]) == Decision::Pending);
        } else if n > i + 1 {
            assert(decision(policy, probes[i]) == Decision::Pending);
        }
    }
}

/// The poll in progress: its policy, interval and time budget.
pub struct PollingLoop {
    pub policy: ReadinessPolicy,
    pub interval_secs: u64,
    pub max_wait_secs: u64,
}

impl PollingLoop {
    /// The poll that waits for an `active` status: every 10 s for 5 minutes.
    pub fn until_active() -> (r: PollingLoop)
        ensures
            r.policy == ReadinessPolicy::StatusActive,
            r.interval_secs == 10,
            r.max_wait_secs == 300,
    {
        PollingLoop { policy: ReadinessPolicy::StatusActive, interval_secs: 10, max_wait_secs: 300 }
    }

    /// The poll that waits for an IP address: every 10 s for 10 minutes.
    pub fn until_ip() -> (r: PollingLoop)
        ensures
            r.policy == ReadinessPolicy::IpAssigned,
            r.interval_secs == 10,
            r.max_wait_secs == 600,
    {
        PollingLoop { policy: ReadinessPolicy::IpAssigned, interval_secs: 10, max_wait_secs: 600 }
    }

    /// What to do after `elapsed_secs` of waiting: sleep one interval and
    /// probe, or give up once the budget is exceeded. No probe comes before
    /// the first interval.
    pub fn next_action(&self, elapsed_secs: u64) -> (r: PollAction)
        ensures
            elapsed_secs > self.max_wait_secs ==> r == PollAction::GiveUp,
            elapsed_secs <= self.max_wait_secs ==> r == PollAction::Wait(self.interval_secs),
    {
        if elapsed_secs > self.max_wait_secs {
            PollAction::GiveUp
        } else {
            PollAction::Wait(self.interval_secs)
        }
    }

    /// How a probe bears on this poll.
    pub fn observe(&self, probe: &Probe) -> (r: Decision)
        ensures
            r == decision(self.policy, *probe),
    {
        decide(self.policy, probe)
    }
}

} // verus!

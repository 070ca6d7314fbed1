//! The isolation execution lifecycle: constructing isolation instances,
//! the optional preload pass, run dispatch, and the join-and-report phase.
//!
//! One thread per isolation executes the workload; spawning, running and
//! joining those threads is the embedding process's work. The decisions are
//! all here: identity assignment, the status machine
//! `Constructed -> Preloaded -> Running -> {Completed | Failed}`, lookup of
//! an isolation by identity at run dispatch, and the report built after all
//! threads have been joined, which follows construction order regardless of
//! completion order and converts a per-isolation failure into a logged,
//! non-fatal event.

use vstd::prelude::*;

use crate::IsolationID;
use crate::hostcall::IsolationContext;

verus! {

/// Which metrics are analyzed and reported after an isolation's thread has
/// been joined: none, all, or memory only.
#[derive(Clone, Copy, Debug, PartialEq, Eq, Structural)]
pub enum MetricOpt {
    Off,
    All,
    Mem,
}

/// The name a metric mode is selected and logged under.
pub open spec fn spec_metric_name(m: MetricOpt) -> Seq<char> {
    match m {
        MetricOpt::Off => "none"@,
        MetricOpt::All => "all"@,
        MetricOpt::Mem => "mem"@,
    }
}

impl MetricOpt {
    /// The name this mode is selected and logged under.
    pub fn name(&self) -> (r: String)
        ensures
            r@ == spec_metric_name(*self),
    {
        match self {
            MetricOpt::Off => "none".to_owned(),
            MetricOpt::All => "all".to_owned(),
            MetricOpt::Mem => "mem".to_owned(),
        }
    }

    /// Whether per-isolation metrics are analyzed at all under this mode.
    pub fn enables_metrics(&self) -> (r: bool)
        ensures
            r == !(*self is Off),
    {
        !matches!(self, MetricOpt::Off)
    }
}

/// Where one isolation stands in its lifecycle.
#[derive(Clone, Copy, Debug, PartialEq, Eq, Structural)]
pub enum IsolationStatus {
    Constructed,
    Preloaded,
    Running,
    Completed,
    Failed,
}

/// One isolation instance: its process-unique identity, its per-isolation
/// context, where it stands in its lifecycle, and the metric events its run
/// has accumulated.
pub struct Isolation {
    pub id: IsolationID,
    pub context: IsolationContext,
    pub status: IsolationStatus,
    pub metric_events: u64,
}

/// What the join phase reports for one isolation, in construction order: the
/// isolation's identity, the error its entry point returned if it failed,
/// whether metrics are to be emitted for it, and the metric events it
/// accumulated.
pub struct RunReport {
    pub id: IsolationID,
    pub error: Option<String>,
    pub emit_metrics: bool,
    pub metric_events: u64,
}

/// The status an isolation ends in, given what its entry point returned: an
/// application-level failure value never crashes the host process, it only
/// marks that isolation failed.
pub open spec fn spec_run_status(r: Result<(), String>) -> IsolationStatus {
    if r is Ok {
        IsolationStatus::Completed
    } else {
        IsolationStatus::Failed
    }
}

/// An isolation after its run result is recorded: only its status changes.
pub open spec fn spec_after_run(isol: Isolation, r: Result<(), String>) -> Isolation {
    Isolation { status: spec_run_status(r), ..isol }
}

/// All isolations after the join phase records their results.
pub open spec fn spec_after_runs(isols: Seq<Isolation>, results: Seq<Result<(), String>>) -> Seq<
    Isolation,
> {
    Seq::new(isols.len(), |i: int| spec_after_run(isols[i], results[i]))
}

/// The report entry for one isolation: built from that isolation's own
/// record and its own run result alone.
pub open spec fn spec_report_entry(
    isol: Isolation,
    r: Result<(), String>,
    m: MetricOpt,
) -> RunReport {
    RunReport {
        id: isol.id,
        error: if r is Err {
            Some(r->Err_0)
        } else {
            None
        },
        emit_metrics: !(m is Off),
        metric_events: isol.metric_events,
    }
}

/// The whole report of the join phase, in construction order.
pub open spec fn spec_report(
    isols: Seq<Isolation>,
    results: Seq<Result<(), String>>,
    m: MetricOpt,
) -> Seq<RunReport> {
    Seq::new(isols.len(), |i: int| spec_report_entry(isols[i], results[i], m))
}

/// Owns the set of isolation instances and drives their lifecycle. The
/// embedding process spawns one thread per isolation and hands the collected
/// results back to [`IsolationRuntime::finish_runs`].
pub struct IsolationRuntime {
    isolations: Vec<Isolation>,
}

impl IsolationRuntime {
    /// The isolations in construction order.
    pub closed spec fn view(&self) -> Seq<Isolation> {
        self.isolations@
    }

    /// Identities equal construction positions: assigned at construction,
    /// unique for the process lifetime, never reused.
    pub open spec fn wf(&self) -> bool {
        forall|i: int| 0 <= i < self@.len() ==> (#[trigger] self@[i]).id == i as IsolationID
    }

    /// A runtime with no isolations yet.
    pub fn new() -> (r: IsolationRuntime)
        ensures
            r.wf(),
            r@ == Seq::<Isolation>::empty(),
    {
        IsolationRuntime { isolations: Vec::new() }
    }

    /// How many isolations have been constructed.
    pub fn len(&self) -> (n: usize)
        ensures
            n == self@.len(),
    {
        self.isolations.len()
    }

    /// A read-only look at one isolation, by construction position.
    pub fn isolation_at(&self, idx: usize) -> (r: Option<&Isolation>)
        ensures
            match r {
                Some(isol) => idx < self@.len() && *isol == self@[idx as int],
                None => idx >= self@.len(),
            },
    {
        if idx < self.isolations.len() {
            Some(&self.isolations[idx])
        } else {
            None
        }
    }

    /// Constructs one isolation: allocates the next identity and an
    /// isolation context recording the handler addresses and the heap range
    /// the isolation owns. No workload code runs yet.
    pub fn add_isolation(
        &mut self,
        find_handler: usize,
        panic_handler: usize,
        heap_start: usize,
        heap_end: usize,
    ) -> (id: IsolationID)
        requires
            old(self).wf(),
            old(self)@.len() < usize::MAX,
        ensures
            final(self).wf(),
            id == old(self)@.len() as IsolationID,
            final(self)@ == old(self)@.push(
                Isolation {
                    id,
                    context: IsolationContext {
                        isol_id: id,
                        find_handler,
                        panic_handler,
                        heap_range: (heap_start, heap_end),
                    },
                    status: IsolationStatus::Constructed,
                    metric_events: 0,
                },
            ),
    {
        let id = self.isolations.len() as IsolationID;
        self.isolations.push(
            Isolation {
                id,
                context: IsolationContext {
                    isol_id: id,
                    find_handler,
                    panic_handler,
                    heap_range: (heap_start, heap_end),
                },
                status: IsolationStatus::Constructed,
                metric_events: 0,
            },
        );
        id
    }

    /// The construction position of the isolation with the given identity;
    /// run dispatch looks an isolation up by identity and treats a missing
    /// one as a programming-logic fault, fatal to the process.
    pub fn find_isolation(&self, id: IsolationID) -> (r: Option<usize>)
        requires
            self.wf(),
        ensures
            match r {
                Some(i) => i < self@.len() && self@[i as int].id == id,
                None => forall|j: int| 0 <= j < self@.len() ==> self@[j].id != id,
            },
    {
        if id < self.isolations.len() as IsolationID {
            Some(id as usize)
        } else {
            None
        }
    }

    /// The eager preload pass, opt-in per process invocation: marks every
    /// isolation's workload modules as initialized ahead of first dispatch.
    /// A preload failure is fatal to the whole process and is the embedding
    /// process's to raise; a pass that returns marks every isolation.
    pub fn mark_all_preloaded(&mut self)
        ensures
            final(self)@.len() == old(self)@.len(),
            forall|i: int|
                0 <= i < old(self)@.len() ==> final(self)@[i] == (Isolation {
                    status: IsolationStatus::Preloaded,
                    ..old(self)@[i]
                }),
            old(self).wf() ==> final(self).wf(),
    {
        let ghost s0 = self.isolations@;
        let n = self.isolations.len();
        let mut i: usize = 0;
        while i < n
            invariant
                i <= n,
                n == s0.len(),
                self.isolations@.len() == s0.len(),
                forall|j: int|
                    0 <= j < i ==> self.isolations@[j] == (Isolation {
                        status: IsolationStatus::Preloaded,
                        ..s0[j]
                    }),
                forall|j: int| i <= j < s0.len() ==> self.isolations@[j] == s0[j],
            decreases n - i,
        {
            self.isolations[i].status = IsolationStatus::Preloaded;
            i = i + 1;
        }
    }

    /// Marks one isolation's thread as dispatched.
    pub fn mark_running(&mut self, idx: usize)
        requires
            idx < old(self)@.len(),
        ensures
            final(self)@ == old(self)@.update(
                idx as int,
                (Isolation { status: IsolationStatus::Running, ..old(self)@[idx as int] }),
            ),
            old(self).wf() ==> final(self).wf(),
    {
        self.isolations[idx].status = IsolationStatus::Running;
    }

    /// Records one metric event issued by a running isolation's workload.
    pub fn record_metric(&mut self, idx: usize)
        requires
            idx < old(self)@.len(),
            old(self)@[idx as int].metric_events < u64::MAX,
        ensures
            final(self)@ == old(self)@.update(
                idx as int,
                (Isolation {
                    metric_events: (old(self)@[idx as int].metric_events + 1) as u64,
                    ..old(self)@[idx as int]
                }),
            ),
            old(self).wf() ==> final(self).wf(),
    {
        self.isolations[idx].metric_events = self.isolations[idx].metric_events + 1;
    }

    /// The join-and-report phase. `results[i]` is what isolation `i`'s entry
    /// point returned, collected by the embedding process after joining the
    /// threads. Processing follows construction order regardless of actual
    /// completion order; a failure marks only its own isolation and is
    /// reported as a logged, non-fatal event.
    pub fn finish_runs(&mut self, results: &Vec<Result<(), String>>, metrics: &MetricOpt) -> (report:
        Vec<RunReport>)
        requires
            results@.len() == old(self)@.len(),
        ensures
            final(self)@ == spec_after_runs(old(self)@, results@),
            report@ == spec_report(old(self)@, results@, *metrics),
            old(self).wf() ==> final(self).wf(),
    {
        let ghost s0 = self.isolations@;
        let n = self.isolations.len();
        let emit = metrics.enables_metrics();
        let mut report: Vec<RunReport> = Vec::new();
        let mut i: usize = 0;
        while i < n
            invariant
                i <= n,
                n == s0.len(),
                results@.len() == s0.len(),
                emit == !(*metrics is Off),
                self.isolations@.len() == s0.len(),
                report@.len() == i,
                forall|j: int|
                    0 <= j < i ==> self.isolations@[j] == spec_after_run(s0[j], results@[j]),
                forall|j: int| i <= j < s0.len() ==> self.isolations@[j] == s0[j],
                forall|j: int|
                    0 <= j < i ==> report@[j] == spec_report_entry(s0[j], results@[j], *metrics),
            decreases n - i,
        {
            let error: Option<String> = match &results[i] {
                Ok(_) => None,
                Err(e) => Some(e.clone()),
            };
            let status = if error.is_none() {
                IsolationStatus::Completed
            } else {
                IsolationStatus::Failed
            };
            self.isolations[i].status = status;
            let entry = RunReport {
                id: self.isolations[i].id,
                error,
                emit_metrics: emit,
                metric_events: self.isolations[i].metric_events,
            };
            report.push(entry);
            i = i + 1;
        }
        proof {
            assert(self.isolations@ =~= spec_after_runs(s0, results@));
            assert(report@ =~= spec_report(s0, results@, *metrics));
        }
        report
    }
}

/// Isolation independence: in the join phase, every isolation's report entry
/// and final status is a function of that isolation's own record and its own
/// run result alone — changing what isolation `k` returned changes nothing
/// for any other isolation — and the report lists isolations in construction
/// order whatever order the runs completed in.
pub proof fn lemma_isolation_independence(
    isols: Seq<Isolation>,
    r1: Seq<Result<(), String>>,
    r2: Seq<Result<(), String>>,
    m: MetricOpt,
    k: int,
)
    requires
        r1.len() == isols.len(),
        r2.len() == isols.len(),
        forall|i: int| 0 <= i < isols.len() && i != k ==> r1[i] == r2[i],
    ensures
        forall|i: int|
            0 <= i < isols.len() && i != k ==> spec_report(isols, r1, m)[i] == spec_report(
                isols,
                r2,
                m,
            )[i],
        forall|i: int|
            0 <= i < isols.len() && i != k ==> spec_after_runs(isols, r1)[i] == spec_after_runs(
                isols,
                r2,
            )[i],
        forall|i: int| 0 <= i < isols.len() ==> spec_report(isols, r1, m)[i].id == isols[i].id,
{
}

} // verus!

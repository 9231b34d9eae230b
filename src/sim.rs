//! The decisions of the phased step scheduler.
//!
//! A step runs the input phase, the element phase and the wire phase in that
//! order and then advances simulated time by one interval. The wire phase is a
//! fork-join: every Wire is checked out of the store, stepped by a worker, and
//! checked back in as its report arrives. This module holds the store and every
//! decision of that protocol; the workers and the result channel are run by the
//! caller, which hands each received report (or the failure to receive one)
//! back to [`Simulation::collect_wire`].

use vstd::prelude::*;

use crate::error::SimError;
use crate::library::{after_checkin, all_present, checkin_ok, Library};
use crate::Id;

verus! {

/// Default time, in milliseconds, to wait for each result of a step phase.
pub const DEFAULT_STEP_PHASE_TIMEOUT_MS: u64 = 1000;

/// A simulation result.
#[derive(Debug, Copy, Clone, PartialEq, Eq, Structural)]
pub enum SimResult {
    /// Simulation is continuing.
    Continuing,
    /// Simulation has completed.
    Finished,
}

/// The report of one Wire's step in the wire phase: the Id it was checked out
/// under, the outcome of its step, and the stepped Wire itself.
pub struct WireReport<T> {
    pub id: Id,
    pub outcome: Result<SimResult, SimError>,
    pub wire: T,
}

/// How a step begins.
pub enum StepStart<T> {
    /// The wire phase is due: step each of these Wires, checked out under the
    /// paired Id, and report back.
    Dispatch(Vec<(Id, T)>),
    /// The step is over, with this result; time has advanced.
    Stopped(Result<SimResult, SimError>),
}

/// What a run does next.
#[derive(Debug, Copy, Clone, PartialEq, Eq)]
pub enum RunControl {
    /// Run one more step.
    Step,
    /// The run is over, with this result.
    Stop(Result<SimResult, SimError>),
}

/// Whether a phase or step result lets the simulation go on.
pub open spec fn continues(r: Result<SimResult, SimError>) -> bool {
    r == Ok::<SimResult, SimError>(SimResult::Continuing)
}

/// The phase result of a wire phase in which some Wire reported `Finished`
/// (`finished`) or none did.
pub open spec fn phase_result(finished: bool) -> SimResult {
    if finished {
        SimResult::Finished
    } else {
        SimResult::Continuing
    }
}

/// Whether `collect_wire` accepts `report` on a store whose model is `s`.
pub open spec fn report_ok<T>(s: Seq<Option<T>>, report: WireReport<T>) -> bool {
    report.outcome.is_ok() && checkin_ok(s, report.id as int)
}

/// The store model after `collect_wire` handles `received`.
pub open spec fn collect_store<T>(
    s: Seq<Option<T>>,
    received: Result<WireReport<T>, SimError>,
) -> Seq<Option<T>> {
    match received {
        Ok(report) => if report_ok(s, report) {
            after_checkin(s, report.id as int, report.wire)
        } else {
            s
        },
        Err(_) => s,
    }
}

/// What `collect_wire` returns for `received`, given whether some Wire of the
/// phase already reported `Finished`.
pub open spec fn collect_result<T>(
    s: Seq<Option<T>>,
    finished: bool,
    received: Result<WireReport<T>, SimError>,
) -> Result<bool, SimError> {
    match received {
        Err(e) => Err(e),
        Ok(report) => match report.outcome {
            Err(e) => Err(e),
            Ok(o) => if checkin_ok(s, report.id as int) {
                Ok(finished || o == SimResult::Finished)
            } else {
                Err(SimError::InvariantViolation)
            },
        },
    }
}

/// The batch that the wire phase dispatches from a full store `s`: every Wire,
/// paired with the Id of its slot.
pub open spec fn dispatch_of<T>(s: Seq<Option<T>>) -> Seq<(Id, T)> {
    Seq::new(s.len(), |i: int| (i as Id, s[i].unwrap()))
}

/// A store model of `n` empty slots.
pub open spec fn all_out<T>(n: nat) -> Seq<Option<T>> {
    Seq::new(n, |i: int| None)
}

impl SimResult {
    /// The result of a wire phase: `Finished` if some Wire reported it.
    pub fn from_finished(finished: bool) -> (r: SimResult)
        ensures
            r == phase_result(finished),
    {
        if finished {
            SimResult::Finished
        } else {
            SimResult::Continuing
        }
    }
}

/// Top level state of a simulation: the store of Wires and simulated time.
pub struct Simulation<T> {
    /// Time step size.
    interval: u64,
    /// Present simulation time.
    time: u64,
    /// Maximum time, in milliseconds, to wait for each result of a step phase.
    phase_timeout_ms: u64,
    /// Every Wire that has been added to the Simulation.
    wires: Library<T>,
}

impl<T> Simulation<T> {
    pub closed spec fn spec_interval(&self) -> u64 {
        self.interval
    }

    pub closed spec fn spec_time(&self) -> u64 {
        self.time
    }

    pub closed spec fn spec_phase_timeout_ms(&self) -> u64 {
        self.phase_timeout_ms
    }

    /// The store of Wires, slot by slot.
    pub closed spec fn spec_wires(&self) -> Seq<Option<T>> {
        self.wires@
    }

    pub closed spec fn wf(&self) -> bool {
        self.interval > 0
    }

    /// Create a new, empty Simulation that advances by `interval` per step.
    pub fn new(interval: u64) -> (r: Self)
        requires
            interval > 0,
        ensures
            r.wf(),
            r.spec_interval() == interval,
            r.spec_time() == 0,
            r.spec_phase_timeout_ms() == DEFAULT_STEP_PHASE_TIMEOUT_MS,
            r.spec_wires() == Seq::<Option<T>>::empty(),
    {
        Self {
            interval,
            time: 0,
            phase_timeout_ms: DEFAULT_STEP_PHASE_TIMEOUT_MS,
            wires: Library::new(),
        }
    }

    /// Time step size.
    pub fn interval(&self) -> (r: u64)
        ensures
            r == self.spec_interval(),
    {
        self.interval
    }

    /// Present simulation time.
    pub fn time(&self) -> (r: u64)
        ensures
            r == self.spec_time(),
    {
        self.time
    }

    /// Time, in milliseconds, to wait for each result of a step phase.
    pub fn phase_timeout_ms(&self) -> (r: u64)
        ensures
            r == self.spec_phase_timeout_ms(),
    {
        self.phase_timeout_ms
    }

    /// Whether no Wire has been added to the Simulation.
    pub fn is_empty(&self) -> (r: bool)
        ensures
            r == (self.spec_wires().len() == 0),
    {
        self.wires.iter().count() == 0
    }

    /// Change the time to wait for each result of a step phase.
    pub fn set_phase_timeout(&mut self, timeout_ms: u64)
        ensures
            final(self).spec_phase_timeout_ms() == timeout_ms,
            final(self).spec_interval() == old(self).spec_interval(),
            final(self).spec_time() == old(self).spec_time(),
            final(self).spec_wires() == old(self).spec_wires(),
    {
        self.phase_timeout_ms = timeout_ms;
    }

    /// Add a Wire; the Id in the result looks it up later.
    pub fn add_wire(&mut self, wire: T) -> (r: Result<Id, SimError>)
        requires
            old(self).spec_wires().len() < usize::MAX,
        ensures
            r == Ok::<Id, SimError>(old(self).spec_wires().len() as Id),
            final(self).spec_wires() == old(self).spec_wires().push(Some(wire)),
            final(self).spec_interval() == old(self).spec_interval(),
            final(self).spec_time() == old(self).spec_time(),
            final(self).spec_phase_timeout_ms() == old(self).spec_phase_timeout_ms(),
    {
        Ok(self.wires.add(wire))
    }

    /// Look up a Wire by Id: `NotFound` when no Wire is stored under it.
    pub fn wire(&self, id: Id) -> (r: Result<&T, SimError>)
        ensures
            id < self.spec_wires().len() && self.spec_wires()[id as int].is_some() ==> r is Ok
                && *r->Ok_0 == self.spec_wires()[id as int].unwrap(),
            !(id < self.spec_wires().len() && self.spec_wires()[id as int].is_some()) ==> r
                == Err::<&T, SimError>(SimError::NotFound),
    {
        match self.wires.inspect(id) {
            Some(w) => Ok(w),
            None => Err(SimError::NotFound),
        }
    }

    /// First phase of a step: the input pins. There are none yet.
    pub fn step_input_pins(&self) -> (r: Result<SimResult, SimError>)
        ensures
            r == Ok::<SimResult, SimError>(SimResult::Continuing),
    {
        Ok(SimResult::Continuing)
    }

    /// Second phase of a step: the elements. There are none yet.
    pub fn step_elements(&self) -> (r: Result<SimResult, SimError>)
        ensures
            r == Ok::<SimResult, SimError>(SimResult::Continuing),
    {
        Ok(SimResult::Continuing)
    }

    /// Check every Wire out of a full store, paired with its Id.
    fn checkout_wires(&mut self) -> (r: Vec<(Id, T)>)
        requires
            all_present(old(self).spec_wires()),
        ensures
            r@ == dispatch_of(old(self).spec_wires()),
            final(self).spec_wires() == all_out::<T>(old(self).spec_wires().len()),
            final(self).spec_interval() == old(self).spec_interval(),
            final(self).spec_time() == old(self).spec_time(),
            final(self).spec_phase_timeout_ms() == old(self).spec_phase_timeout_ms(),
    {
        let ghost s0 = self.wires@;
        let n = self.wires.len();
        let mut batch: Vec<(Id, T)> = Vec::new();
        let mut it = self.wires.iter();
        let mut i: usize = 0;
        while i < n
            invariant
                n == s0.len(),
                i <= n,
                self.wires@.len() == n,
                it.wf(),
                it.next_id() == i,
                it.end_id() == n,
                all_present(s0),
                forall|j: int| 0 <= j < i ==> (#[trigger] self.wires@[j]).is_none(),
                forall|j: int| i <= j < n ==> #[trigger] self.wires@[j] == s0[j],
                batch@ == dispatch_of(s0).take(i as int),
                self.interval == old(self).interval,
                self.time == old(self).time,
                self.phase_timeout_ms == old(self).phase_timeout_ms,
            decreases n - i,
        {
            let id = it.next().unwrap();
            let wire = self.wires.checkout(id).unwrap();
            assert(dispatch_of(s0).take(i + 1) == dispatch_of(s0).take(i as int).push((id, wire)));
            batch.push((id, wire));
            i = i + 1;
        }
        assert(self.wires@ == all_out::<T>(n as nat));
        assert(batch@ == dispatch_of(s0));
        batch
    }

    /// Begin a step: run the input and element phases and, as both continue,
    /// check every Wire out for the wire phase. A store with a Wire still
    /// checked out ends the step with `InvariantViolation`. A step that ends
    /// here advances time by one interval.
    pub fn begin_step(&mut self) -> (r: StepStart<T>)
        requires
            old(self).spec_time() + old(self).spec_interval() <= u64::MAX,
        ensures
            final(self).spec_interval() == old(self).spec_interval(),
            final(self).spec_phase_timeout_ms() == old(self).spec_phase_timeout_ms(),
            all_present(old(self).spec_wires()) ==> r is Dispatch && r->Dispatch_0@
                == dispatch_of(old(self).spec_wires()) && final(self).spec_wires()
                == all_out::<T>(old(self).spec_wires().len()) && final(self).spec_time()
                == old(self).spec_time(),
            !all_present(old(self).spec_wires()) ==> r is Stopped && r->Stopped_0 == Err::<
                SimResult,
                SimError,
            >(SimError::InvariantViolation) && final(self).spec_wires()
                == old(self).spec_wires() && final(self).spec_time() == old(self).spec_time()
                + old(self).spec_interval(),
    {
        let mut result = self.step_input_pins();
        if matches!(result, Ok(SimResult::Continuing)) {
            result = self.step_elements();
        }
        if matches!(result, Ok(SimResult::Continuing)) {
            match self.wires.audit() {
                Ok(()) => {
                    return StepStart::Dispatch(self.checkout_wires());
                },
                Err(_) => {
                    result = Err(SimError::InvariantViolation);
                },
            }
        }
        self.time = self.time + self.interval;
        StepStart::Stopped(result)
    }

    /// Handle one receive of the wire phase, given whether some Wire of the
    /// phase already reported `Finished`: check the reported Wire back in under
    /// its Id and fold its outcome in. A failed receive or a failed outcome is
    /// handed on; a report the store cannot take back is an `InvariantViolation`.
    pub fn collect_wire(
        &mut self,
        finished: bool,
        received: Result<WireReport<T>, SimError>,
    ) -> (r: Result<bool, SimError>)
        ensures
            r == collect_result(old(self).spec_wires(), finished, received),
            final(self).spec_wires() == collect_store(old(self).spec_wires(), received),
            final(self).spec_interval() == old(self).spec_interval(),
            final(self).spec_time() == old(self).spec_time(),
            final(self).spec_phase_timeout_ms() == old(self).spec_phase_timeout_ms(),
    {
        match received {
            Err(e) => Err(e),
            Ok(report) => {
                let WireReport { id, outcome, wire } = report;
                match outcome {
                    Err(e) => Err(e),
                    Ok(o) => match self.wires.checkin(id, wire) {
                        Ok(_) => Ok(finished || o == SimResult::Finished),
                        Err(_) => Err(SimError::InvariantViolation),
                    },
                }
            },
        }
    }

    /// End a step whose wire phase ran: advance time by one interval and hand
    /// the step's result on.
    pub fn end_step(&mut self, result: Result<SimResult, SimError>) -> (r: Result<
        SimResult,
        SimError,
    >)
        requires
            old(self).spec_time() + old(self).spec_interval() <= u64::MAX,
        ensures
            r == result,
            final(self).spec_time() == old(self).spec_time() + old(self).spec_interval(),
            final(self).spec_interval() == old(self).spec_interval(),
            final(self).spec_phase_timeout_ms() == old(self).spec_phase_timeout_ms(),
            final(self).spec_wires() == old(self).spec_wires(),
    {
        self.time = self.time + self.interval;
        result
    }

    /// Decide what a run does next, given the result of the last step (`None`
    /// before the first). An empty Simulation is finished at once; otherwise
    /// the run steps on for as long as steps continue and ends with the first
    /// result that does not.
    pub fn run_control(&self, last: Option<Result<SimResult, SimError>>) -> (r: RunControl)
        ensures
            last.is_none() && self.spec_wires().len() == 0 ==> r == RunControl::Stop(
                Ok(SimResult::Finished),
            ),
            last.is_none() && self.spec_wires().len() > 0 ==> r == RunControl::Step,
            last.is_some() && continues(last.unwrap()) ==> r == RunControl::Step,
            last.is_some() && !continues(last.unwrap()) ==> r == RunControl::Stop(last.unwrap()),
    {
        match last {
            None => if self.is_empty() {
                RunControl::Stop(Ok(SimResult::Finished))
            } else {
                RunControl::Step
            },
            Some(result) => if matches!(result, Ok(SimResult::Continuing)) {
                RunControl::Step
            } else {
                RunControl::Stop(result)
            },
        }
    }
}

/// The store model and fold result after the wire phase hands `reports`, in
/// order, to `collect_wire`, starting from `finished`; the phase stops at the
/// first error.
pub open spec fn collect_all<T>(
    s: Seq<Option<T>>,
    finished: bool,
    reports: Seq<WireReport<T>>,
) -> (Seq<Option<T>>, Result<bool, SimError>)
    decreases reports.len(),
{
    if reports.len() == 0 {
        (s, Ok(finished))
    } else {
        let (s1, r1) = collect_all(s, finished, reports.drop_last());
        match r1 {
            Err(e) => (s1, Err(e)),
            Ok(f) => (
                collect_store(s1, Ok(reports.last())),
                collect_result(s1, f, Ok(reports.last())),
            ),
        }
    }
}

/// Whether some report says `Finished`.
pub open spec fn some_finished<T>(reports: Seq<WireReport<T>>) -> bool {
    exists|k: int|
        0 <= k < reports.len() && (#[trigger] reports[k]).outcome == Ok::<SimResult, SimError>(
            SimResult::Finished,
        )
}

/// Whether some report carries the Id `j`.
pub open spec fn reported<T>(reports: Seq<WireReport<T>>, j: int) -> bool {
    exists|k: int| 0 <= k < reports.len() && reports[k].id == j
}

/// Whether the reports come from `n` dispatched Wires, each reporting once,
/// with a successful outcome.
pub open spec fn complete_reports<T>(n: nat, reports: Seq<WireReport<T>>) -> bool {
    &&& reports.len() == n
    &&& forall|k: int| 0 <= k < reports.len() ==> (#[trigger] reports[k]).id < n
    &&& forall|k: int| 0 <= k < reports.len() ==> (#[trigger] reports[k]).outcome.is_ok()
    &&& forall|k: int, l: int|
        0 <= k < l < reports.len() ==> (#[trigger] reports[k]).id != (#[trigger] reports[l]).id
    &&& forall|j: int| 0 <= j < n ==> #[trigger] reported(reports, j)
}

proof fn lemma_collect_prefix<T>(n: nat, reports: Seq<WireReport<T>>)
    requires
        forall|k: int| 0 <= k < reports.len() ==> (#[trigger] reports[k]).id < n,
        forall|k: int| 0 <= k < reports.len() ==> (#[trigger] reports[k]).outcome.is_ok(),
        forall|k: int, l: int|
            0 <= k < l < reports.len() ==> (#[trigger] reports[k]).id != (#[trigger] reports[l]).id,
    ensures
        collect_all(all_out::<T>(n), false, reports).0.len() == n,
        forall|j: int|
            0 <= j < n ==> ((#[trigger] collect_all(all_out::<T>(n), false, reports).0[j]).is_some()
                <==> reported(reports, j)),
        collect_all(all_out::<T>(n), false, reports).1 == Ok::<bool, SimError>(
            some_finished(reports),
        ),
    decreases reports.len(),
{
    if reports.len() > 0 {
        let prev = reports.drop_last();
        let last = reports.last();
        assert forall|k: int, l: int| 0 <= k < l < prev.len() implies (#[trigger] prev[k]).id
            != (#[trigger] prev[l]).id by {
            assert(prev[k] == reports[k] && prev[l] == reports[l]);
        }
        lemma_collect_prefix(n, prev);
        let (s1, r1) = collect_all(all_out::<T>(n), false, prev);
        assert(last == reports[reports.len() - 1]);
        assert(last.outcome.is_ok());
        assert(s1[last.id as int].is_none()) by {
            if s1[last.id as int].is_some() {
                let k = choose|k: int| 0 <= k < prev.len() && prev[k].id == last.id;
                assert(reports[k] == prev[k]);
            }
        }
        let s2 = collect_all(all_out::<T>(n), false, reports).0;
        assert forall|j: int| 0 <= j < n implies ((#[trigger] s2[j]).is_some() <==> reported(
            reports,
            j,
        )) by {
            if s2[j].is_some() {
                if j == last.id {
                    assert(reports[reports.len() - 1].id == j);
                } else {
                    let k = choose|k: int| 0 <= k < prev.len() && prev[k].id == j;
                    assert(reports[k] == prev[k]);
                }
            }
            if reported(reports, j) {
                let k = choose|k: int| 0 <= k < reports.len() && reports[k].id == j;
                if k < prev.len() {
                    assert(prev[k] == reports[k]);
                }
            }
        }
        if some_finished(reports) {
            let k = choose|k: int|
                0 <= k < reports.len() && (#[trigger] reports[k]).outcome == Ok::<
                    SimResult,
                    SimError,
                >(SimResult::Finished);
            if k < prev.len() {
                assert(prev[k] == reports[k]);
            }
        }
        if some_finished(prev) {
            let k = choose|k: int|
                0 <= k < prev.len() && (#[trigger] prev[k]).outcome == Ok::<SimResult, SimError>(
                    SimResult::Finished,
                );
            assert(reports[k] == prev[k]);
        }
    }
}

/// A wire phase whose dispatched Wires all report back in time, each once and
/// with a successful outcome, in any order, ends with a store that passes its
/// audit, and with `Finished` exactly when some Wire reported it (through
/// [`SimResult::from_finished`]), else `Continuing`.
pub proof fn lemma_wire_phase_completes<T>(n: nat, reports: Seq<WireReport<T>>)
    requires
        complete_reports(n, reports),
    ensures
        all_present(collect_all(all_out::<T>(n), false, reports).0),
        collect_all(all_out::<T>(n), false, reports).1 == Ok::<bool, SimError>(
            some_finished(reports),
        ),
{
    lemma_collect_prefix(n, reports);
    let s = collect_all(all_out::<T>(n), false, reports).0;
    assert forall|j: int| 0 <= j < s.len() implies (#[trigger] s[j]).is_some() by {
        assert(reported(reports, j));
    }
}

} // verus!

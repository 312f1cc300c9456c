//! The workload lifecycle state machine for the running phase: the decision
//! logic of one poll pass over the workload's service units, and the status
//! document the running state renders.
//!
//! The machine is driven externally. The caller owns the interval timer, the
//! registry read lock and the liveness queries; this module decides, from a
//! snapshot of the registry entry and the liveness answers, whether to stay
//! in `Running`, transition to `Failed`, or end supervision with an error.

use crate::status::make_status_with_containers_and_condition;
use crate::status::{
    Condition, ConditionModel, ContainerState, ContainerStatus, ContainerStatusModel, Phase,
    StatusDoc, StatusDocModel,
};
use crate::workload::{ContainerMeta, Handle, Timestamp};
use vstd::prelude::*;

verus! {

/// What one liveness query answered. Keeping "definitely not running" apart
/// from "the query itself failed" is load-bearing: the first is a workload
/// failure, the second means the supervisor cannot trust its own observation.
#[derive(Clone, Debug, PartialEq, Eq)]
pub enum Liveness {
    /// The unit was confirmed running.
    Live,
    /// The unit was confirmed not running.
    Stopped,
    /// The query itself failed; nothing is known about the unit.
    QueryFailed { error: String },
}

/// The running state: the workload's units are installed and supervision
/// polls them for liveness.
#[derive(Clone, Debug, PartialEq, Eq)]
pub struct Running {
    /// When the workload entered the running state; set at construction,
    /// immutable thereafter, echoed into the `Ready` condition.
    pub transition_time: Timestamp,
}

/// The failed state: some unit was confirmed not running.
#[derive(Clone, Debug, PartialEq, Eq)]
pub struct Failed {
    /// Human text describing the failure.
    pub message: String,
}

/// An unrecoverable error that ends supervision of the workload. Distinct
/// from a transition to [`Failed`], which is a normal, reportable outcome.
#[derive(Clone, Debug, PartialEq, Eq)]
pub enum SuperviseError {
    /// The registry had no entry for the workload: nothing left to supervise.
    MissingHandles { service_name: String },
    /// A liveness query failed, so the observation cannot be trusted.
    QueryFailure { service_unit: String, error: String },
}

/// What a poll pass decided.
#[derive(Clone, Debug, PartialEq, Eq)]
pub enum Outcome {
    /// Every unit was confirmed live: keep the `Running` state and poll again
    /// at the next interval.
    StayRunning,
    /// A unit was confirmed not running: transition to the failed state.
    TransitionToFailed(Failed),
    /// Supervision ends with an unrecoverable error.
    CompleteWithError(SuperviseError),
}

/// Every queried unit in the pass was confirmed live.
pub open spec fn all_live(outcomes: Seq<Liveness>) -> bool {
    forall|i: int| 0 <= i < outcomes.len() ==> outcomes[i] is Live
}

/// Position `i` holds the first answer of the pass that is not "live":
/// the point where the pass short-circuits.
pub open spec fn first_failure_at(outcomes: Seq<Liveness>, i: int) -> bool {
    &&& 0 <= i < outcomes.len()
    &&& !(outcomes[i] is Live)
    &&& forall|j: int| 0 <= j < i ==> outcomes[j] is Live
}

/// `r` is the registry-inconsistency outcome: supervision ends with an error
/// that names the workload's service.
pub open spec fn missing_handles_outcome(service_name: &String, r: Outcome) -> bool {
    &&& r matches Outcome::CompleteWithError(e)
    &&& e matches SuperviseError::MissingHandles { service_name: s }
    &&& s@ == service_name@
}

/// `r` is what a pass must decide when its first non-live answer stands at
/// position `i`: a confirmed stop transitions to `Failed` with an empty
/// message; a failed query ends supervision with the unit's name and the
/// underlying error.
pub open spec fn pass_failure_outcome(
    handles: Seq<Handle>,
    outcomes: Seq<Liveness>,
    i: int,
    r: Outcome,
) -> bool
    recommends
        first_failure_at(outcomes, i),
{
    match outcomes[i] {
        Liveness::Live => true,
        Liveness::Stopped => {
            &&& r matches Outcome::TransitionToFailed(f)
            &&& f.message@ == Seq::<char>::empty()
        },
        Liveness::QueryFailed { error } => {
            &&& r matches Outcome::CompleteWithError(e)
            &&& e matches SuperviseError::QueryFailure { service_unit, error: err }
            &&& service_unit@ == handles[i].service_unit@
            &&& err@ == error@
        },
    }
}

/// The full contract of one poll pass, relating the registry snapshot and the
/// liveness answers to the decision.
pub open spec fn advance_post(
    service_name: &String,
    lookup: &Option<Vec<Handle>>,
    outcomes: &Vec<Liveness>,
    r: Outcome,
) -> bool {
    match lookup {
        None => missing_handles_outcome(service_name, r),
        Some(handles) => {
            &&& (all_live(outcomes@) ==> r == Outcome::StayRunning)
            &&& forall|i: int| #[trigger]
                first_failure_at(outcomes@, i) ==> pass_failure_outcome(handles@, outcomes@, i, r)
        },
    }
}

impl Running {
    /// Decide one liveness answer for one unit, in query order. `None` means
    /// the pass goes on to the next unit (or, past the last unit, stays in
    /// `Running`); `Some` is the pass's decision, and no further unit of the
    /// pass is queried.
    pub fn poll_step(&self, handle: &Handle, outcome: &Liveness) -> (r: Option<Outcome>)
        ensures
            outcome is Live <==> r is None,
            (outcome is Stopped ==> {
                &&& r matches Some(Outcome::TransitionToFailed(f))
                &&& f.message@ == Seq::<char>::empty()
            }),
            (outcome matches Liveness::QueryFailed { error } ==> {
                &&& r matches Some(Outcome::CompleteWithError(e))
                &&& e matches SuperviseError::QueryFailure { service_unit, error: err }
                &&& service_unit@ == handle.service_unit@
                &&& err@ == error@
            }),
    {
        match outcome {
            Liveness::Live => None,
            Liveness::Stopped => Some(Outcome::TransitionToFailed(Failed { message: String::new() })),
            Liveness::QueryFailed { error } => Some(Outcome::CompleteWithError(
                SuperviseError::QueryFailure {
                    service_unit: handle.service_unit.clone(),
                    error: error.clone(),
                },
            )),
        }
    }

    /// Decide one whole poll pass. `lookup` is the snapshot of the registry
    /// entry for this workload; `outcomes` holds, unit by unit in query
    /// order, what each unit's liveness query answered. An absent registry
    /// entry is an unrecoverable inconsistency; otherwise the first answer
    /// that is not "live" decides the pass, and a pass of only live answers
    /// keeps the `Running` state. Answers past the first non-live one are
    /// never inspected.
    pub fn advance(
        &self,
        service_name: &String,
        lookup: &Option<Vec<Handle>>,
        outcomes: &Vec<Liveness>,
    ) -> (r: Outcome)
        requires
            lookup matches Some(handles) ==> outcomes@.len() == handles@.len(),
        ensures
            advance_post(service_name, lookup, outcomes, r),
    {
        match lookup.as_ref() {
            None => Outcome::CompleteWithError(SuperviseError::MissingHandles {
                service_name: service_name.clone(),
            }),
            Some(handles) => {
                let mut i: usize = 0;
                while i < outcomes.len()
                    invariant
                        lookup is Some,
                        handles@ == lookup->Some_0@,
                        i <= outcomes@.len(),
                        outcomes@.len() == handles@.len(),
                        forall|j: int| 0 <= j < i ==> outcomes@[j] is Live,
                    decreases outcomes@.len() - i,
                {
                    match self.poll_step(&handles[i], &outcomes[i]) {
                        None => {
                            i = i + 1;
                        },
                        Some(decision) => {
                            proof {
                                let gi = i as int;
                                assert(!(outcomes@[gi] is Live));
                                assert(first_failure_at(outcomes@, gi));
                                assert(!all_live(outcomes@)) by {
                                    if all_live(outcomes@) {
                                        assert(outcomes@[gi] is Live);
                                    }
                                }
                                assert(pass_failure_outcome(handles@, outcomes@, gi, decision));
                                assert forall|k: int|
                                    first_failure_at(outcomes@, k) implies pass_failure_outcome(
                                    handles@,
                                    outcomes@,
                                    k,
                                    decision,
                                ) by {
                                    if k < gi {
                                        assert(outcomes@[k] is Live);
                                    } else if k > gi {
                                        assert(outcomes@[gi] is Live);
                                    }
                                }
                            }
                            return decision;
                        },
                    }
                }
                proof {
                    assert forall|k: int| first_failure_at(outcomes@, k) implies false by {
                        assert(outcomes@[k] is Live);
                    }
                }
                Outcome::StayRunning
            },
        }
    }
}

/// The document the running state renders: phase `Running`, reason
/// `Running`, one `Ready`/`True` condition timestamped at the state's
/// transition time, and the first container marked ready but not started,
/// with a running container-state marker. Only the first container is
/// reported, a known limitation of this status path: multi-container
/// aggregation is not specified here.
pub open spec fn running_status_model(
    transition_time: Timestamp,
    container_name: Seq<char>,
) -> StatusDocModel {
    StatusDocModel {
        phase: Phase::Running,
        reason: "Running"@,
        message: None,
        container_statuses: seq![
            ContainerStatusModel {
                name: container_name,
                ready: true,
                started: Some(false),
                state: Some(ContainerState::Running { started_at: None }),
            },
        ],
        events: Seq::empty(),
        conditions: seq![
            ConditionModel {
                type_: "Ready"@,
                status: "True"@,
                reason: Some("Running"@),
                message: Some("Service is running"@),
                last_probe_time: None,
                last_transition_time: Some(transition_time),
            },
        ],
    }
}

/// The document the failed state renders: phase `Failed`, a `Ready`/`False`
/// condition, and the failure message.
pub open spec fn failed_status_model(message: Seq<char>) -> StatusDocModel {
    StatusDocModel {
        phase: Phase::Failed,
        reason: "Failed"@,
        message: None,
        container_statuses: Seq::empty(),
        events: Seq::empty(),
        conditions: seq![
            ConditionModel {
                type_: "Ready"@,
                status: "False"@,
                reason: Some("Failed"@),
                message: Some(message),
                last_probe_time: None,
                last_transition_time: None,
            },
        ],
    }
}

impl Running {
    /// Render the running state's status document from the container
    /// metadata. A pure function of the state and the metadata: the result
    /// is pinned exactly, so rendering twice with unchanged inputs gives
    /// identical documents.
    pub fn status(&self, containers: &Vec<ContainerMeta>) -> (r: StatusDoc)
        requires
            containers@.len() >= 1,
        ensures
            r@ == running_status_model(self.transition_time, containers@[0].name@),
    {
        let state = ContainerState::Running { started_at: None };
        let container_status = ContainerStatus {
            name: containers[0].name.clone(),
            ready: true,
            started: Some(false),
            state: Some(state),
        };
        let mut container_statuses: Vec<ContainerStatus> = Vec::new();
        container_statuses.push(container_status);
        let condition = Condition {
            type_: "Ready".to_owned(),
            status: "True".to_owned(),
            reason: Some("Running".to_owned()),
            message: Some("Service is running".to_owned()),
            last_probe_time: None,
            last_transition_time: Some(self.transition_time),
        };
        let mut conditions: Vec<Condition> = Vec::new();
        conditions.push(condition);
        let r = make_status_with_containers_and_condition(
            Phase::Running,
            "Running",
            container_statuses,
            Vec::new(),
            conditions,
        );
        proof {
            assert(r@ =~~= running_status_model(self.transition_time, containers@[0].name@));
        }
        r
    }
}

impl Failed {
    /// Render the failed state's status document, carrying the failure
    /// message in the `Ready`/`False` condition. Pinned exactly, like the
    /// running state's document.
    pub fn status(&self) -> (r: StatusDoc)
        ensures
            r@ == failed_status_model(self.message@),
    {
        let condition = Condition {
            type_: "Ready".to_owned(),
            status: "False".to_owned(),
            reason: Some("Failed".to_owned()),
            message: Some(self.message.clone()),
            last_probe_time: None,
            last_transition_time: None,
        };
        let mut conditions: Vec<Condition> = Vec::new();
        conditions.push(condition);
        let r = make_status_with_containers_and_condition(
            Phase::Failed,
            "Failed",
            Vec::new(),
            Vec::new(),
            conditions,
        );
        proof {
            assert(r@ =~~= failed_status_model(self.message@));
        }
        r
    }
}

/// Determinism of status rendering: two documents rendered from the same
/// running state and the same container metadata are the same document.
pub proof fn lemma_status_deterministic(
    state: &Running,
    containers: &Vec<ContainerMeta>,
    r1: &StatusDoc,
    r2: &StatusDoc,
)
    requires
        containers@.len() >= 1,
        r1@ == running_status_model(state.transition_time, containers@[0].name@),
        r2@ == running_status_model(state.transition_time, containers@[0].name@),
    ensures
        r1@ == r2@,
{
}

/// A pass that is not all-live has a first non-live answer: the position at
/// which the sequential queries of the pass short-circuit.
pub proof fn lemma_first_failure_exists(outcomes: Seq<Liveness>)
    requires
        !all_live(outcomes),
    ensures
        exists|i: int| first_failure_at(outcomes, i),
    decreases outcomes.len(),
{
    let w = choose|w: int| 0 <= w < outcomes.len() && !(outcomes[w] is Live);
    if !(outcomes[0] is Live) {
        assert(first_failure_at(outcomes, 0));
    } else {
        let tail = outcomes.drop_first();
        assert(!(tail[w - 1] is Live));
        assert(!all_live(tail));
        lemma_first_failure_exists(tail);
        let i = choose|i: int| first_failure_at(tail, i);
        assert(first_failure_at(outcomes, i + 1)) by {
            assert(outcomes[i + 1] == tail[i]);
            assert forall|k: int| 0 <= k < i + 1 implies outcomes[k] is Live by {
                if k >= 1 {
                    assert(tail[k - 1] is Live);
                }
            }
        }
    }
}

/// Stability: a pass in which every handle reports live never leaves the
/// `Running` state.
pub proof fn lemma_live_pass_stays_running(
    service_name: &String,
    lookup: &Option<Vec<Handle>>,
    outcomes: &Vec<Liveness>,
    r: Outcome,
)
    requires
        lookup is Some,
        all_live(outcomes@),
        advance_post(service_name, lookup, outcomes, r),
    ensures
        r == Outcome::StayRunning,
{
}

/// At least one handle confirmed not running forces the transition to
/// `Failed` on that pass, whatever the other handles report, provided every
/// query of the pass itself succeeded.
pub proof fn lemma_stopped_handle_forces_failed(
    service_name: &String,
    lookup: &Option<Vec<Handle>>,
    outcomes: &Vec<Liveness>,
    r: Outcome,
)
    requires
        lookup is Some,
        exists|i: int| 0 <= i < outcomes@.len() && outcomes@[i] is Stopped,
        forall|i: int| 0 <= i < outcomes@.len() ==> !(outcomes@[i] is QueryFailed),
        advance_post(service_name, lookup, outcomes, r),
    ensures
        r is TransitionToFailed,
{
    let w = choose|w: int| 0 <= w < outcomes@.len() && outcomes@[w] is Stopped;
    assert(!all_live(outcomes@));
    lemma_first_failure_exists(outcomes@);
    let i = choose|i: int| first_failure_at(outcomes@, i);
    assert(outcomes@[i] is Stopped);
    assert(pass_failure_outcome(lookup->Some_0@, outcomes@, i, r));
}

/// A registry without an entry for the workload always yields the
/// unrecoverable missing-handles error naming the workload's service, never
/// a `Failed` transition: nothing to supervise is not a supervised failure.
pub proof fn lemma_missing_entry_is_unrecoverable(
    service_name: &String,
    lookup: &Option<Vec<Handle>>,
    outcomes: &Vec<Liveness>,
    r: Outcome,
)
    requires
        lookup is None,
        advance_post(service_name, lookup, outcomes, r),
    ensures
        missing_handles_outcome(service_name, r),
        !(r is TransitionToFailed),
        !(r is StayRunning),
{
}

/// A failed liveness query, reached by the pass (every handle before it
/// reported live), always ends supervision with an unrecoverable error
/// carrying the underlying error text: never a silent continuation and never
/// a `Failed` transition.
pub proof fn lemma_query_failure_is_unrecoverable(
    service_name: &String,
    lookup: &Option<Vec<Handle>>,
    outcomes: &Vec<Liveness>,
    i: int,
    r: Outcome,
)
    requires
        lookup is Some,
        first_failure_at(outcomes@, i),
        outcomes@[i] is QueryFailed,
        advance_post(service_name, lookup, outcomes, r),
    ensures
        r matches Outcome::CompleteWithError(e) && e matches SuperviseError::QueryFailure {
            service_unit,
            error,
        } && service_unit@ == lookup->Some_0@[i].service_unit@ && error@
            == outcomes@[i]->QueryFailed_error@,
        !(r is TransitionToFailed),
        !(r is StayRunning),
{
    assert(pass_failure_outcome(lookup->Some_0@, outcomes@, i, r));
    assert(!all_live(outcomes@)) by {
        if all_live(outcomes@) {
            assert(outcomes@[i] is Live);
        }
    }
}

} // verus!

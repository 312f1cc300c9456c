//! The status document pushed to the control plane, and the builder that
//! assembles one. The builder is a pure transformation: it renders values
//! already computed by the calling state and never inspects registry or
//! service-manager state, so identical inputs give identical documents.

use crate::workload::Timestamp;
use vstd::prelude::*;

verus! {

/// Coarse workload status category reported to the control plane.
#[derive(Clone, Copy, Debug, PartialEq, Eq, Structural)]
pub enum Phase {
    Pending,
    Running,
    Failed,
    Succeeded,
}

/// Marker for the state a container is in. The running marker may carry the
/// time the container started, when that is known.
#[derive(Clone, Copy, Debug, PartialEq, Eq)]
pub enum ContainerState {
    Waiting,
    Running { started_at: Option<Timestamp> },
    Terminated,
}

/// Status of one container of the workload.
#[derive(Clone, Debug, PartialEq, Eq)]
pub struct ContainerStatus {
    pub name: String,
    pub ready: bool,
    pub started: Option<bool>,
    pub state: Option<ContainerState>,
}

/// Mathematical model of a [`ContainerStatus`]: the name as a character
/// sequence, everything else as plain values.
#[verifier::ext_equal]
pub struct ContainerStatusModel {
    pub name: Seq<char>,
    pub ready: bool,
    pub started: Option<bool>,
    pub state: Option<ContainerState>,
}

impl View for ContainerStatus {
    type V = ContainerStatusModel;

    open spec fn view(&self) -> ContainerStatusModel {
        ContainerStatusModel {
            name: self.name@,
            ready: self.ready,
            started: self.started,
            state: self.state,
        }
    }
}

/// A named boolean-ish status field (such as `Ready`) with reason, message,
/// and the time of the last transition.
#[derive(Clone, Debug, PartialEq, Eq)]
pub struct Condition {
    pub type_: String,
    pub status: String,
    pub reason: Option<String>,
    pub message: Option<String>,
    pub last_probe_time: Option<Timestamp>,
    pub last_transition_time: Option<Timestamp>,
}

/// Mathematical model of a [`Condition`].
#[verifier::ext_equal]
pub struct ConditionModel {
    pub type_: Seq<char>,
    pub status: Seq<char>,
    pub reason: Option<Seq<char>>,
    pub message: Option<Seq<char>>,
    pub last_probe_time: Option<Timestamp>,
    pub last_transition_time: Option<Timestamp>,
}

/// The view of an optional string: the character sequence, when present.
pub open spec fn opt_string_view(s: Option<String>) -> Option<Seq<char>> {
    match s {
        None => None,
        Some(v) => Some(v@),
    }
}

impl View for Condition {
    type V = ConditionModel;

    open spec fn view(&self) -> ConditionModel {
        ConditionModel {
            type_: self.type_@,
            status: self.status@,
            reason: opt_string_view(self.reason),
            message: opt_string_view(self.message),
            last_probe_time: self.last_probe_time,
            last_transition_time: self.last_transition_time,
        }
    }
}

/// An event attached to the status document. The states in this library never
/// produce one; the field is carried through for the document's shape.
#[derive(Clone, Debug, PartialEq, Eq)]
pub struct Event {
    pub reason: String,
    pub message: String,
}

/// Mathematical model of an [`Event`].
#[verifier::ext_equal]
pub struct EventModel {
    pub reason: Seq<char>,
    pub message: Seq<char>,
}

impl View for Event {
    type V = EventModel;

    open spec fn view(&self) -> EventModel {
        EventModel { reason: self.reason@, message: self.message@ }
    }
}

/// The status document: what a state hands back to the driving engine for the
/// control plane. Rebuilt fresh on every `status` call, never mutated. The
/// human-readable text of this library's states lives in their conditions, so
/// the top-level message stays empty.
#[derive(Clone, Debug, PartialEq, Eq)]
pub struct StatusDoc {
    pub phase: Phase,
    pub reason: String,
    pub message: Option<String>,
    pub container_statuses: Vec<ContainerStatus>,
    pub events: Vec<Event>,
    pub conditions: Vec<Condition>,
}

/// Mathematical model of a [`StatusDoc`]: every string a character sequence,
/// every list a sequence of models.
#[verifier::ext_equal]
pub struct StatusDocModel {
    pub phase: Phase,
    pub reason: Seq<char>,
    pub message: Option<Seq<char>>,
    pub container_statuses: Seq<ContainerStatusModel>,
    pub events: Seq<EventModel>,
    pub conditions: Seq<ConditionModel>,
}

impl View for StatusDoc {
    type V = StatusDocModel;

    open spec fn view(&self) -> StatusDocModel {
        StatusDocModel {
            phase: self.phase,
            reason: self.reason@,
            message: opt_string_view(self.message),
            container_statuses: self.container_statuses@.map_values(|c: ContainerStatus| c@),
            events: self.events@.map_values(|e: Event| e@),
            conditions: self.conditions@.map_values(|c: Condition| c@),
        }
    }
}

/// The model a builder call must produce: the inputs, rendered one for one.
pub open spec fn built_status_model(
    phase: Phase,
    reason: Seq<char>,
    container_statuses: Seq<ContainerStatusModel>,
    events: Seq<EventModel>,
    conditions: Seq<ConditionModel>,
) -> StatusDocModel {
    StatusDocModel {
        phase,
        reason,
        message: None,
        container_statuses,
        events,
        conditions,
    }
}

/// Assemble a status document from already-computed parts. Deterministic:
/// the result's model is exactly the inputs' models, so unchanged inputs give
/// an unchanged document and the control plane's patch-diffing sees a no-op.
pub fn make_status_with_containers_and_condition(
    phase: Phase,
    reason: &str,
    container_statuses: Vec<ContainerStatus>,
    events: Vec<Event>,
    conditions: Vec<Condition>,
) -> (r: StatusDoc)
    ensures
        r@ == built_status_model(
            phase,
            reason@,
            container_statuses@.map_values(|c: ContainerStatus| c@),
            events@.map_values(|e: Event| e@),
            conditions@.map_values(|c: Condition| c@),
        ),
{
    let r = StatusDoc {
        phase,
        reason: reason.to_owned(),
        message: None,
        container_statuses,
        events,
        conditions,
    };
    proof {
        assert(r@ =~= built_status_model(
            phase,
            reason@,
            r.container_statuses@.map_values(|c: ContainerStatus| c@),
            r.events@.map_values(|e: Event| e@),
            r.conditions@.map_values(|c: Condition| c@),
        ));
    }
    r
}

} // verus!

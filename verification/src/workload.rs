//! Basic data types for a supervised workload: the timestamp used in status
//! reporting, the handle that ties one container to its backing host service
//! unit, and the container metadata that status rendering reads.

use vstd::prelude::*;

verus! {

/// A point in time, as seconds since the Unix epoch. Status conditions carry
/// the moment a state was entered; the clock that produces the value lives
/// outside this library.
#[derive(Clone, Copy, Debug, PartialEq, Eq, Structural)]
pub struct Timestamp {
    pub epoch_seconds: i64,
}

/// Reference to one host service unit backing one container of the workload.
/// Owned by the handle registry; the state machine only reads a snapshot.
#[derive(Clone, Debug, PartialEq, Eq)]
pub struct Handle {
    /// Name of the container this unit backs.
    pub container_name: String,
    /// Name of the host service unit to query for liveness.
    pub service_unit: String,
}

/// The slice of a container's manifest that status rendering needs.
#[derive(Clone, Debug, PartialEq, Eq)]
pub struct ContainerMeta {
    /// The container's name, echoed into its per-container status.
    pub name: String,
}

} // verus!

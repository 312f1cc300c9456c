pub mod lifecycle;
pub mod status;
pub mod workload;

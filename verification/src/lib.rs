//! Orchestration core of an operating-system installer: the wizard that
//! collects the operator's answers and the pipeline that turns them into an
//! ordered series of requests for an external executor.

pub mod detect;
pub mod disks;
pub mod guarantees;
pub mod model;
pub mod network;
pub mod pipeline;
pub mod plan;
pub mod request;
pub mod termination;
pub mod text;
pub mod wizard;

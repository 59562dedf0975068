//! Per-pod lifecycle control for a node agent that drives a container runtime.
//!
//! The library holds the decisions: the sandbox and container registry, the
//! runtime configuration that a pod descriptor calls for, the image pull
//! policy and the lifecycle state machine. The state machine is a step
//! function: it is handed the outcome of the last runtime call and answers
//! with the next state and the next call to make.

pub mod text;
pub mod policy;
pub mod cri;
pub mod registry;
pub mod pod;
pub mod translate;
pub mod model;
pub mod status;
pub mod states;
pub mod laws;
pub mod provider;
pub mod glue;

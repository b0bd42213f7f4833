//! Deployment lifecycle of an external service (a one-shot job) on a
//! Kubernetes cluster: chart values, release naming, and the decisions of the
//! create, pause and delete operations, with the external tools driven by the
//! caller.

pub mod error;
pub mod service;
pub mod lifecycle;
pub mod readiness;
pub mod target;
pub mod template_context;

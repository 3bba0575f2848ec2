//! The execution engine: the decisions a container-runtime backend makes,
//! stated over plain values, and the error taxonomy for its failures.

pub mod docker_engine;
pub mod errors;

//! Control plane of a platform-as-a-service: given an application descriptor
//! (image, tag, name, environment), it decides how to drive a container
//! runtime to realize the desired running state, maps the observed raw state
//! back to an application-level status, computes resource usage, and
//! classifies runtime failures into a small error taxonomy.
//!
//! Everything that talks to the container runtime or to the network is
//! asynchronous I/O and lives outside this library; the library states, as
//! verified functions over plain values, every decision those loops make.

pub mod application;
pub mod config;
pub mod db;
pub mod engine;
pub mod errors;
pub mod grpc_server;
pub mod server;

//! Configuration the engine is constructed with. Reading the process
//! environment happens outside the library; these constructors take the
//! values read there, and apply the documented defaults.

pub mod application_config;
pub mod database_config;
pub mod traefik_config;

//! Lifecycle management of the single cloud instance that backs one
//! development environment: locating it by its labels, provisioning and
//! tearing it down, starting, stopping and querying it, and running one
//! command on it over SSH.
//!
//! Every network interaction is expressed as a request value handed to the
//! caller together with the decision that follows the reply, so the
//! sequencing and failure handling are verified while the transport stays
//! outside.

pub mod error;
pub mod options;
pub mod size;
pub mod api;
pub mod lookup;
pub mod instance;
pub mod health;
pub mod create;
pub mod delete;
pub mod command;

//! Configuration-setup logic for the Rice command-line tool.
//!
//! The crate collects typed answers for two optional services (Storage and
//! State), renders a module-style settings document and a block of
//! environment-variable assignments, merges the block into existing file
//! content, derives a health-check URL and classifies the probe outcome, and
//! renders the masked configuration report.  Everything here is pure: file
//! contents, the environment and the probe outcome are explicit parameters,
//! so the surrounding binary only performs the I/O that a plan asks for.

pub mod answers;
pub mod envfile;
pub mod health;
pub mod report;
pub mod session;
pub mod settings;
pub mod text;

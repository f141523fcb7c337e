//! A declarative, config-driven task scheduler.
//!
//! A configuration document — already parsed into a generic tree of keys,
//! arrays and scalars — describes a list of workers. Each worker binds a
//! timing policy (run once after a delay, or repeatedly on an interval) to a
//! list of jobs. A builder decodes the document into workers; each worker's
//! schedule and job fan-out are stated and proved here, while the caller
//! performs the actual timer waits and process launches.

pub mod builder;
pub mod config;
pub mod dispatcher;
pub mod job;
pub mod run;
pub mod shell_command;
pub mod timing;
pub mod worker;

//! Process-wide facilities of an application: a workspace that derives its
//! directory layout from one root path, and a logger that formats leveled,
//! timestamped records for one sink.
//!
//! Both are built once and kept for the life of the process. This library
//! holds the values and the decisions as plain data (a cell that is empty or
//! holds the instance), so that the first-call-wins policy is proved; the
//! program that owns the process-wide instances keeps each cell behind a lock.
pub mod once;
pub mod workspace;
pub mod logger;

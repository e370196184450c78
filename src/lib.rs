//! Named periodic background tasks on a multi-worker runtime: the error
//! taxonomy, the lifecycle of a repeated task, and the decisions of the loop
//! that runs its job.

pub mod external;

pub mod error;
pub mod runtime;
pub mod schedule;
pub mod task;

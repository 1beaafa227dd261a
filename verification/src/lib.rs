//! Running a workload inside a hardware-isolated keep, whatever the isolation
//! technology: the interface that every technology implements, the life cycle
//! of a thread inside a keep, and the block through which one call at a time
//! is handed to the host and answered.

pub mod backend;
pub mod binary;
pub mod sallyport;

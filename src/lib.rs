//! Decision logic of a small concurrent HTTP benchmark: counting the bytes
//! of one request, the shuffle-and-iterate cycle of a worker, and the plan
//! of workers that a run starts.

pub mod transfer;
pub mod launch;
pub mod worker;

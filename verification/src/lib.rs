//! Verified helpers for nginx modules: typed cache statuses, connection
//! counters and the decision logic around shared memory zones.
pub mod ffi;
pub mod http;
pub mod status;
pub mod shm;
pub mod event;

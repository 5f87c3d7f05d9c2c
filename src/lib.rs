//! The I/O driver core of a thread-per-core runtime: the table of in-flight
//! completion-based operations and their lifecycle, the readiness slots of a
//! poll-based driver, the decisions of a park, and the sentinel user data
//! that tells the driver's own requests from user operations.

pub mod driver;
pub mod errno;
pub mod op;
pub mod ops;
pub mod park;
pub mod readiness;
pub mod ready;
pub mod slab;
pub mod uring;
pub mod userdata;

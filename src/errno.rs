use vstd::prelude::*;

verus! {

/// Linux error number: the resource is temporarily unavailable (the
/// operation would block).
pub const EAGAIN: i32 = 11;

/// Linux error number: device or resource busy.
pub const EBUSY: i32 = 16;

/// Linux error number: operation canceled.
pub const ECANCELED: i32 = 125;

} // verus!

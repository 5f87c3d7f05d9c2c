use vstd::prelude::*;

use crate::ops::MAX_OPS;

verus! {

/// User data of the async-cancel requests the driver pushes.
pub const CANCEL_USERDATA: u64 = 0xffff_ffff_ffff_ffff;

/// User data of the timeout request installed by `park_timeout`.
pub const TIMEOUT_USERDATA: u64 = 0xffff_ffff_ffff_fffe;

/// User data of the read request on the wake event fd.
pub const EVENTFD_USERDATA: u64 = 0xffff_ffff_ffff_fffd;

/// Lowest user-data value reserved for the driver's own requests.
pub const MIN_RESERVED_USERDATA: u64 = 0xffff_ffff_ffff_fffd;

/// Whether a completion's user data names one of the driver's own requests.
pub fn is_reserved(user_data: u64) -> (r: bool)
    ensures
        r == (user_data >= MIN_RESERVED_USERDATA),
{
    user_data >= MIN_RESERVED_USERDATA
}

/// What a completion entry's user data names.
#[derive(Clone, Copy, PartialEq, Eq, Structural, Debug)]
pub enum CqeTarget {
    /// The completion of an async-cancel request.
    Cancel,
    /// The expiry (or removal) of the park timeout.
    Timeout,
    /// The read on the wake event fd finished: a foreign thread woke the driver.
    EventFd,
    /// A user operation, by table index.
    Op(usize),
    /// A value below the reserved range that no table index can take.
    Unknown,
}

pub open spec fn classify_spec(user_data: u64) -> CqeTarget {
    if user_data == CANCEL_USERDATA {
        CqeTarget::Cancel
    } else if user_data == TIMEOUT_USERDATA {
        CqeTarget::Timeout
    } else if user_data == EVENTFD_USERDATA {
        CqeTarget::EventFd
    } else if user_data < MAX_OPS as u64 {
        CqeTarget::Op(user_data as usize)
    } else {
        CqeTarget::Unknown
    }
}

/// Tells the driver's own requests apart from user operations.
pub fn classify(user_data: u64) -> (r: CqeTarget)
    ensures
        r == classify_spec(user_data),
        r is Op ==> !is_reserved_spec(user_data),
{
    if user_data == CANCEL_USERDATA {
        CqeTarget::Cancel
    } else if user_data == TIMEOUT_USERDATA {
        CqeTarget::Timeout
    } else if user_data == EVENTFD_USERDATA {
        CqeTarget::EventFd
    } else if user_data < MAX_OPS as u64 {
        CqeTarget::Op(user_data as usize)
    } else {
        CqeTarget::Unknown
    }
}

pub open spec fn is_reserved_spec(user_data: u64) -> bool {
    user_data >= MIN_RESERVED_USERDATA
}

} // verus!

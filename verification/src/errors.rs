//! Error values returned by ring construction and by the bulk operations.

use vstd::prelude::*;

verus! {

/// Failures a ring can report.
///
/// `InvalidConfig` is a construction-time rejection of the requested capacity
/// or flags.  `InsufficientSpace` and `InsufficientElements` are the bulk-mode
/// runtime errors: the all-or-nothing operation did not run, the ring is
/// unchanged, and `available` carries how much room (respectively how many
/// committed elements) the ring had at the time of the call.
#[derive(Clone, Copy, Debug, PartialEq, Eq, Structural)]
pub enum RingError {
    /// The requested capacity or flag combination is rejected.
    InvalidConfig,
    /// A bulk enqueue asked for more free slots than the ring has.
    InsufficientSpace { available: u32 },
    /// A bulk dequeue asked for more committed elements than the ring holds.
    InsufficientElements { available: u32 },
}

impl RingError {
    /// A short human-readable description of the error.
    pub fn describe(&self) -> (r: &'static str)
        ensures
            r@ == match self {
                RingError::InvalidConfig => "invalid ring config"@,
                RingError::InsufficientSpace { .. } => "insufficient free space in ring"@,
                RingError::InsufficientElements { .. } => "insufficient elements in ring"@,
            },
    {
        match self {
            RingError::InvalidConfig => "invalid ring config",
            RingError::InsufficientSpace { .. } => "insufficient free space in ring",
            RingError::InsufficientElements { .. } => "insufficient elements in ring",
        }
    }
}

} // verus!

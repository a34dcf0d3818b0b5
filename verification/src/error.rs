//! What the library reports when a request cannot be served.

use vstd::prelude::*;

verus! {

/// None of these is retried by the library: each goes to the immediate caller.
#[derive(Clone, Copy, Debug, PartialEq, Eq)]
pub enum Error {
    /// A transition was requested with `TrackPermit::Extend`, but the state
    /// of the resource can only be replaced.
    PermitViolation,
    /// The platform took the presentation surface away. The swapchain is of
    /// no use any more and has to be created again.
    SurfaceLost,
    /// The resource was never registered, or is registered no more.
    ResourceNotTracked,
    /// No image became available within the time allowed.
    Timeout,
    /// The backend handed out an image that lies outside the ring, or one
    /// that is acquired already and not presented yet.
    InvalidImage,
    /// A present was asked for while no image is acquired.
    NothingAcquired,
}

} // verus!

use vstd::prelude::*;

verus! {

/// Health of one build service, as shown on its light.
#[derive(Clone, Copy, PartialEq, Eq, Structural, Debug)]
pub enum RemoteStatus {
    /// Too little signal to call it either way (glowing purple).
    Unknown,
    /// Builds are running and nothing has failed (fast green glow).
    InProgress,
    /// The builds pass (solid green).
    Passing,
    /// At least one build is known to fail (blinking red).
    Failing,
}

} // verus!

use vstd::prelude::*;

verus! {

/// Why a registry operation was refused. Every failure leaves the registry
/// exactly as it was.
#[derive(Clone, Copy, Debug, PartialEq, Eq, Structural)]
pub enum FrameError {
    /// The name is already registered in the table addressed by the call.
    AlreadyExists,
    /// No frame is registered under the given name.
    CouldNotFindFrame,
    /// No point is registered under the given name.
    CouldNotFindPoint,
}

} // verus!

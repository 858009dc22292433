use vstd::prelude::*;

verus! {

/// An operation on a ready session, each with its own failure.
#[derive(Clone, Copy, Debug, PartialEq, Eq, Structural)]
pub enum Operation {
    Pause,
    Resume,
    Read,
    Register,
    MemorySize,
}

/// What can go wrong, while a session is set up or while it is used.
#[derive(Clone, Copy, Debug, PartialEq, Eq, Structural)]
pub enum FDPError {
    /// The shared library could not be found or loaded.
    LibraryLoad,
    /// The loaded library lacks this exported entry point.
    SymbolResolution(crate::symbol::Symbol),
    /// The session name holds a null character.
    InvalidName,
    /// The native call that opens a session returned no handle.
    HandleCreation,
    /// The native init call reported failure.
    Initialization,
    /// A buffer is longer than the native length field can carry.
    SizeOverflow,
    /// A native call on a ready session reported failure.
    Operation(Operation),
}

} // verus!

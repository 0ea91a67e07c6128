use vstd::prelude::*;

verus! {

/// Errors of the device-level operations.
#[derive(Debug, Clone, Copy, PartialEq, Eq, Structural)]
pub enum Error {
    /// The wintun backend offers no way to perform the operation.
    NotImplemented,
}

/// Errors of the packet-level I/O operations.
///
/// The wintun backend reports every failure of its ring buffer the same way,
/// so an I/O failure carries no further detail.
#[derive(Debug, Clone, Copy, PartialEq, Eq, Structural)]
pub enum IoError {
    /// The driver refused the operation.
    Other,
}

} // verus!

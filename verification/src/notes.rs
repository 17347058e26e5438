use vstd::prelude::*;

verus! {

/// What there is to tell an onlooker at a step. It has no bearing on what is done.
#[derive(Debug, Clone, Copy, PartialEq, Eq, Structural)]
pub enum Note {
    /// The file is there and will be replaced.
    Replacing,
    /// `position` of the `total` bytes expected have been written.
    TransferProgress { position: u64, total: u64 },
    /// `position` of the `total` bytes expected have been read back.
    VerificationProgress { position: u64, total: u64 },
}

} // verus!

use vstd::prelude::*;

verus! {

/// Which of an account's two resources an access asked for.
#[derive(Clone, Copy, Debug, PartialEq, Eq, Structural)]
pub enum BorrowSource {
    /// The account's data buffer.
    Data,
    /// The account's balance field.
    Balance,
}

/// What kind of access an attempted borrow asked for.
#[derive(Clone, Copy, Debug, PartialEq, Eq, Structural)]
pub enum BorrowKind {
    /// A shared (read) borrow.
    Shared,
    /// An exclusive (write) borrow.
    Exclusive,
}

/// Why a dispatch failed.
///
/// All validation failures are detected locally and returned immediately:
/// they indicate either a caller bug or a genuine access conflict that
/// retrying within the same call cannot resolve.
#[derive(Clone, Copy, Debug, PartialEq, Eq, Structural)]
pub enum ProgramError {
    /// Fewer live accounts were supplied than the descriptor declares roles.
    InsufficientAccounts,
    /// An account's identifier does not match the declared role at its
    /// position.
    ArgumentMismatch,
    /// The named access on the named resource is incompatible with a borrow
    /// already outstanding in an enclosing frame.
    BorrowConflict(BorrowSource, BorrowKind),
    /// The target identifier is not present in the registry.
    UnknownTarget,
    /// The target identifier names stored bytes, not an executable entry.
    TargetNotExecutable,
    /// The nested call chain exceeded the depth the runtime allows.
    CallDepthExceeded,
    /// The seed list is too long, or one seed exceeds the documented maximum
    /// length.
    MaxSeedLengthExceeded,
    /// The derived address is invalid for the given seeds.
    InvalidSeeds,
    /// The owner for an address derivation is not permitted.
    IllegalOwner,
    /// An opaque failure code reported by the backend.
    HostReportedFailure(u64),
}

/// The result of one dispatched call: success, or the failure that aborted
/// the call chain.
pub type ProgramResult = Result<(), ProgramError>;

} // verus!

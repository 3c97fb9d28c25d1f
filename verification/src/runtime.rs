use vstd::prelude::*;

use crate::account::AccountInfo;
use crate::error::{BorrowKind, BorrowSource, ProgramError, ProgramResult};
use crate::instruction::{AccountMeta, Instruction, SignerProof};
use crate::pubkey::Pubkey;

pub mod blackbox;
pub mod mock;

verus! {

/// Every handle names a position inside the account table.
pub open spec fn handles_in_range(handles: Seq<usize>, set_len: nat) -> bool {
    forall|i: int| 0 <= i < handles.len() ==> (#[trigger] handles[i]) < set_len
}

/// Is every declared role positionally aligned with the identifier of the
/// live account at the same position?
pub open spec fn keys_aligned(
    metas: Seq<AccountMeta>,
    handles: Seq<usize>,
    set: Seq<AccountInfo>,
) -> bool {
    forall|i: int|
        0 <= i < metas.len() ==> set[#[trigger] handles[i] as int].key@ == metas[i].pubkey@
}

/// Why the account at one position cannot grant its declared role's
/// access, if it cannot. A writable role needs both of the account's
/// resources free for exclusive access; a readonly role needs both free
/// of exclusive holders.
pub open spec fn borrow_failure(m: AccountMeta, a: AccountInfo) -> Option<ProgramError> {
    if m.is_writable {
        if !a.data_borrow.admits_exclusive() {
            Some(ProgramError::BorrowConflict(BorrowSource::Data, BorrowKind::Exclusive))
        } else if !a.lamports_borrow.admits_exclusive() {
            Some(ProgramError::BorrowConflict(BorrowSource::Balance, BorrowKind::Exclusive))
        } else {
            None
        }
    } else {
        if !a.data_borrow.admits_shared() {
            Some(ProgramError::BorrowConflict(BorrowSource::Data, BorrowKind::Shared))
        } else if !a.lamports_borrow.admits_shared() {
            Some(ProgramError::BorrowConflict(BorrowSource::Balance, BorrowKind::Shared))
        } else {
            None
        }
    }
}

/// The borrow pass from position `i` on: the failure of the first
/// position whose account cannot grant its role's access, if any.
pub open spec fn spec_check_borrows_from(
    metas: Seq<AccountMeta>,
    handles: Seq<usize>,
    set: Seq<AccountInfo>,
    i: int,
) -> ProgramResult
    decreases metas.len() - i,
{
    if i < 0 || i >= metas.len() {
        Ok(())
    } else {
        match borrow_failure(metas[i], set[handles[i] as int]) {
            Some(e) => Err(e),
            None => spec_check_borrows_from(metas, handles, set, i + 1),
        }
    }
}

/// The outcome of checked-dispatch validation, with its steps in order:
/// the arity check first; then the positional-identity check over every
/// position, so any mismatch is reported before any borrow is examined;
/// then the borrow check.
pub open spec fn spec_validate(
    metas: Seq<AccountMeta>,
    handles: Seq<usize>,
    set: Seq<AccountInfo>,
) -> ProgramResult {
    if handles.len() < metas.len() {
        Err(ProgramError::InsufficientAccounts)
    } else if !keys_aligned(metas, handles, set) {
        Err(ProgramError::ArgumentMismatch)
    } else {
        spec_check_borrows_from(metas, handles, set, 0)
    }
}

/// The borrow pass from position zero agrees with the pass from position
/// `i` while every earlier position grants its role's access.
pub proof fn lemma_borrows_skip(
    metas: Seq<AccountMeta>,
    handles: Seq<usize>,
    set: Seq<AccountInfo>,
    i: int,
)
    requires
        0 <= i <= metas.len(),
        forall|j: int|
            0 <= j < i ==> borrow_failure(metas[j], set[#[trigger] handles[j] as int]) is None,
    ensures
        spec_check_borrows_from(metas, handles, set, 0) == spec_check_borrows_from(
            metas,
            handles,
            set,
            i,
        ),
    decreases i,
{
    if i > 0 {
        lemma_borrows_skip(metas, handles, set, i - 1);
    }
}

/// The validation a checked dispatch runs before it reaches any backend:
/// arity, then every position's identity, then borrow admissibility,
/// reporting the first failing step. It only examines the accounts; it
/// acquires nothing and changes nothing.
pub fn validate_dispatch(
    metas: &Vec<AccountMeta>,
    handles: &Vec<usize>,
    set: &Vec<AccountInfo>,
) -> (r: ProgramResult)
    requires
        handles_in_range(handles@, set@.len()),
    ensures
        r == spec_validate(metas@, handles@, set@),
{
    if handles.len() < metas.len() {
        return Err(ProgramError::InsufficientAccounts);
    }
    let mut i: usize = 0;
    while i < metas.len()
        invariant
            i <= metas@.len() <= handles@.len(),
            handles_in_range(handles@, set@.len()),
            forall|j: int|
                0 <= j < i ==> set@[#[trigger] handles@[j] as int].key@ == metas@[j].pubkey@,
        decreases metas@.len() - i,
    {
        if !set[handles[i]].key.key_eq(&metas[i].pubkey) {
            return Err(ProgramError::ArgumentMismatch);
        }
        i += 1;
    }
    let mut i: usize = 0;
    while i < metas.len()
        invariant
            i <= metas@.len() <= handles@.len(),
            handles_in_range(handles@, set@.len()),
            keys_aligned(metas@, handles@, set@),
            forall|j: int|
                0 <= j < i ==> borrow_failure(metas@[j], set@[#[trigger] handles@[j] as int])
                    is None,
        decreases metas@.len() - i,
    {
        let m = &metas[i];
        let a = &set[handles[i]];
        let failure: Option<ProgramError> = if m.is_writable {
            if !a.check_borrow_mut_data() {
                Some(ProgramError::BorrowConflict(BorrowSource::Data, BorrowKind::Exclusive))
            } else if !a.check_borrow_mut_lamports() {
                Some(ProgramError::BorrowConflict(BorrowSource::Balance, BorrowKind::Exclusive))
            } else {
                None
            }
        } else {
            if !a.check_borrow_data() {
                Some(ProgramError::BorrowConflict(BorrowSource::Data, BorrowKind::Shared))
            } else if !a.check_borrow_lamports() {
                Some(ProgramError::BorrowConflict(BorrowSource::Balance, BorrowKind::Shared))
            } else {
                None
            }
        };
        match failure {
            Some(e) => {
                proof {
                    lemma_borrows_skip(metas@, handles@, set@, i as int);
                }
                return Err(e);
            },
            None => {},
        }
        i += 1;
    }
    proof {
        lemma_borrows_skip(metas@, handles@, set@, metas@.len() as int);
    }
    Ok(())
}

/// The single interface all backends implement. A checked dispatch
/// validates the descriptor against the live accounts before performing the
/// call; the unchecked dispatch performs the call only, for callers that
/// have already established the same invariants by other means.
///
/// What each operation guarantees is the backend's own business: each
/// backend defines the associated predicates over its own state.
pub trait Runtime: Sized {
    /// What one checked dispatch guarantees.
    spec fn invoke_post(
        pre: Self,
        post: Self,
        target: Seq<u8>,
        metas: Seq<AccountMeta>,
        data: Seq<u8>,
        handles: Seq<usize>,
        set_pre: Seq<AccountInfo>,
        set_post: Seq<AccountInfo>,
        signers: Seq<SignerProof>,
        r: ProgramResult,
    ) -> bool;

    /// What one unchecked dispatch guarantees.
    spec fn invoke_unchecked_post(
        pre: Self,
        post: Self,
        target: Seq<u8>,
        metas: Seq<AccountMeta>,
        data: Seq<u8>,
        handles: Seq<usize>,
        set_pre: Seq<AccountInfo>,
        set_post: Seq<AccountInfo>,
        signers: Seq<SignerProof>,
        r: ProgramResult,
    ) -> bool;

    /// What logging a text line guarantees.
    spec fn logged_message(pre: Self, post: Self, message: Seq<char>) -> bool;

    /// What logging five 64-bit words guarantees.
    spec fn logged_words(pre: Self, post: Self, a1: u64, a2: u64, a3: u64, a4: u64, a5: u64) -> bool;

    /// What logging byte blocks guarantees.
    spec fn logged_bytes(pre: Self, post: Self, blocks: Seq<Seq<u8>>) -> bool;

    /// What logging the remaining compute units guarantees.
    spec fn logged_compute_units(pre: Self, post: Self) -> bool;

    /// Whether this backend can derive addresses at all.
    spec fn derives_addresses() -> bool;

    /// What one address derivation guarantees.
    spec fn derived_post(
        pre: Self,
        post: Self,
        seeds: Seq<Seq<u8>>,
        program_id: Seq<u8>,
        r: Result<Pubkey, ProgramError>,
    ) -> bool;

    /// Print a line of text to the log.
    fn sol_log(&mut self, message: &str)
        ensures
            Self::logged_message(*old(self), *final(self), message@),
    ;

    /// Print five 64-bit words to the log.
    fn sol_log_64(&mut self, arg1: u64, arg2: u64, arg3: u64, arg4: u64, arg5: u64)
        ensures
            Self::logged_words(*old(self), *final(self), arg1, arg2, arg3, arg4, arg5),
    ;

    /// Print byte blocks to the log.
    fn sol_log_data(&mut self, data: &Vec<Vec<u8>>)
        ensures
            Self::logged_bytes(*old(self), *final(self), data@.map_values(|d: Vec<u8>| d@)),
    ;

    /// Print the remaining compute units to the log.
    fn sol_log_compute_units(&mut self)
        ensures
            Self::logged_compute_units(*old(self), *final(self)),
    ;

    /// Dispatch one call: validate the descriptor against the live accounts
    /// in the caller's table, then perform it.
    fn invoke_signed(
        &mut self,
        ix: &Instruction,
        handles: &Vec<usize>,
        set: &mut Vec<AccountInfo>,
        signers: &Vec<SignerProof>,
    ) -> (r: ProgramResult)
        requires
            handles_in_range(handles@, old(set)@.len()),
        ensures
            Self::invoke_post(
                *old(self),
                *final(self),
                ix.program_id@,
                ix.accounts@,
                ix.data@,
                handles@,
                old(set)@,
                final(set)@,
                signers@,
                r,
            ),
    ;

    /// Dispatch one call without the validation of `invoke_signed`. An
    /// explicit, auditable escape hatch for callers that have already paid
    /// the validation cost earlier in the call chain; never the default.
    fn invoke_signed_access_unchecked(
        &mut self,
        ix: &Instruction,
        handles: &Vec<usize>,
        set: &mut Vec<AccountInfo>,
        signers: &Vec<SignerProof>,
    ) -> (r: ProgramResult)
        requires
            handles_in_range(handles@, old(set)@.len()),
        ensures
            Self::invoke_unchecked_post(
                *old(self),
                *final(self),
                ix.program_id@,
                ix.accounts@,
                ix.data@,
                handles@,
                old(set)@,
                final(set)@,
                signers@,
                r,
            ),
    ;

    /// Derive the address for the given seeds under the given program.
    fn sol_create_program_address(
        &mut self,
        seeds: &Vec<Vec<u8>>,
        program_id: &Pubkey,
    ) -> (r: Result<Pubkey, ProgramError>)
        requires
            Self::derives_addresses(),
        ensures
            Self::derived_post(
                *old(self),
                *final(self),
                seeds@.map_values(|s: Vec<u8>| s@),
                program_id@,
                r,
            ),
    ;
}


} // verus!

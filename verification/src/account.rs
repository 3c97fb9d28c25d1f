use vstd::prelude::*;

use crate::error::{BorrowKind, BorrowSource, ProgramError};
use crate::pubkey::Pubkey;

verus! {

/// Outstanding borrows on one resource of an account.
#[derive(Clone, Copy, Debug, PartialEq, Eq, Structural)]
pub enum BorrowState {
    /// No borrow is outstanding.
    Free,
    /// The given number of shared (read) borrows are outstanding.
    Shared(u32),
    /// One exclusive (write) borrow is outstanding.
    Exclusive,
}

impl BorrowState {
    /// A shared borrow may be acquired: nothing holds the resource
    /// exclusively.
    pub open spec fn admits_shared(self) -> bool {
        self != BorrowState::Exclusive
    }

    /// An exclusive borrow may be acquired: nothing holds the resource at
    /// all.
    pub open spec fn admits_exclusive(self) -> bool {
        self == BorrowState::Free
    }
}

/// A live account at the boundary of a call frame: its metadata, its byte
/// buffer, and the borrows currently outstanding on each of its two
/// resources (the data buffer and the balance field).
///
/// The borrow fields are the fallible acquire/release discipline that
/// prevents two call frames from accessing the same account memory
/// incompatibly.
#[derive(Clone, Debug)]
pub struct AccountInfo {
    /// The account's identifier.
    pub key: Pubkey,
    /// Whether the account signed the current transaction.
    pub is_signer: bool,
    /// Whether the account was passed to the current frame as writable.
    pub is_writable: bool,
    /// The program that owns the account.
    pub owner: Pubkey,
    /// The account's balance.
    pub lamports: u64,
    /// The account's data buffer.
    pub data: Vec<u8>,
    /// Borrows outstanding on the data buffer.
    pub data_borrow: BorrowState,
    /// Borrows outstanding on the balance field.
    pub lamports_borrow: BorrowState,
}

impl AccountInfo {
    /// A fresh account with no outstanding borrows.
    pub fn new(
        key: Pubkey,
        is_signer: bool,
        is_writable: bool,
        owner: Pubkey,
        lamports: u64,
        data: Vec<u8>,
    ) -> (a: AccountInfo)
        ensures
            a.key == key,
            a.is_signer == is_signer,
            a.is_writable == is_writable,
            a.owner == owner,
            a.lamports == lamports,
            a.data == data,
            a.data_borrow == BorrowState::Free,
            a.lamports_borrow == BorrowState::Free,
    {
        AccountInfo {
            key,
            is_signer,
            is_writable,
            owner,
            lamports,
            data,
            data_borrow: BorrowState::Free,
            lamports_borrow: BorrowState::Free,
        }
    }

    /// The account's identifier.
    pub fn key(&self) -> (k: &Pubkey)
        ensures
            *k == self.key,
    {
        &self.key
    }

    pub fn is_signer(&self) -> (r: bool)
        ensures
            r == self.is_signer,
    {
        self.is_signer
    }

    pub fn is_writable(&self) -> (r: bool)
        ensures
            r == self.is_writable,
    {
        self.is_writable
    }

    pub fn lamports(&self) -> (r: u64)
        ensures
            r == self.lamports,
    {
        self.lamports
    }

    pub fn data_len(&self) -> (r: usize)
        ensures
            r == self.data@.len(),
    {
        self.data.len()
    }

    /// Whether a shared borrow of the data buffer could be acquired now.
    pub fn check_borrow_data(&self) -> (r: bool)
        ensures
            r == self.data_borrow.admits_shared(),
    {
        !matches!(self.data_borrow, BorrowState::Exclusive)
    }

    /// Whether an exclusive borrow of the data buffer could be acquired now.
    pub fn check_borrow_mut_data(&self) -> (r: bool)
        ensures
            r == self.data_borrow.admits_exclusive(),
    {
        matches!(self.data_borrow, BorrowState::Free)
    }

    /// Whether a shared borrow of the balance could be acquired now.
    pub fn check_borrow_lamports(&self) -> (r: bool)
        ensures
            r == self.lamports_borrow.admits_shared(),
    {
        !matches!(self.lamports_borrow, BorrowState::Exclusive)
    }

    /// Whether an exclusive borrow of the balance could be acquired now.
    pub fn check_borrow_mut_lamports(&self) -> (r: bool)
        ensures
            r == self.lamports_borrow.admits_exclusive(),
    {
        matches!(self.lamports_borrow, BorrowState::Free)
    }

    /// Acquire a shared borrow of the data buffer; fails if the buffer is
    /// exclusively held by an enclosing frame.
    pub fn try_borrow_data(&mut self) -> (r: Result<(), ProgramError>)
        ensures
            old(self).data_borrow.admits_shared() ==> {
                &&& r == Ok::<(), ProgramError>(())
                &&& *final(self) == AccountInfo {
                    data_borrow: shared_incremented(old(self).data_borrow),
                    ..*old(self)
                }
            },
            !old(self).data_borrow.admits_shared() ==> {
                &&& r == Err::<(), ProgramError>(ProgramError::BorrowConflict(
                    BorrowSource::Data,
                    BorrowKind::Shared,
                ))
                &&& *final(self) == *old(self)
            },
    {
        match self.data_borrow {
            BorrowState::Exclusive => Err(ProgramError::BorrowConflict(
                BorrowSource::Data,
                BorrowKind::Shared,
            )),
            BorrowState::Free => {
                self.data_borrow = BorrowState::Shared(1);
                Ok(())
            },
            BorrowState::Shared(n) => {
                let next = if n < u32::MAX { n + 1 } else { n };
                self.data_borrow = BorrowState::Shared(next);
                Ok(())
            },
        }
    }

    /// Acquire an exclusive borrow of the data buffer; fails if any borrow
    /// is outstanding.
    pub fn try_borrow_mut_data(&mut self) -> (r: Result<(), ProgramError>)
        ensures
            old(self).data_borrow.admits_exclusive() ==> {
                &&& r == Ok::<(), ProgramError>(())
                &&& *final(self) == AccountInfo {
                    data_borrow: BorrowState::Exclusive,
                    ..*old(self)
                }
            },
            !old(self).data_borrow.admits_exclusive() ==> {
                &&& r == Err::<(), ProgramError>(ProgramError::BorrowConflict(
                    BorrowSource::Data,
                    BorrowKind::Exclusive,
                ))
                &&& *final(self) == *old(self)
            },
    {
        match self.data_borrow {
            BorrowState::Free => {
                self.data_borrow = BorrowState::Exclusive;
                Ok(())
            },
            _ => Err(ProgramError::BorrowConflict(
                BorrowSource::Data,
                BorrowKind::Exclusive,
            )),
        }
    }

    /// Acquire a shared borrow of the balance; fails if the balance is
    /// exclusively held by an enclosing frame.
    pub fn try_borrow_lamports(&mut self) -> (r: Result<(), ProgramError>)
        ensures
            old(self).lamports_borrow.admits_shared() ==> {
                &&& r == Ok::<(), ProgramError>(())
                &&& *final(self) == AccountInfo {
                    lamports_borrow: shared_incremented(old(self).lamports_borrow),
                    ..*old(self)
                }
            },
            !old(self).lamports_borrow.admits_shared() ==> {
                &&& r == Err::<(), ProgramError>(ProgramError::BorrowConflict(
                    BorrowSource::Balance,
                    BorrowKind::Shared,
                ))
                &&& *final(self) == *old(self)
            },
    {
        match self.lamports_borrow {
            BorrowState::Exclusive => Err(ProgramError::BorrowConflict(
                BorrowSource::Balance,
                BorrowKind::Shared,
            )),
            BorrowState::Free => {
                self.lamports_borrow = BorrowState::Shared(1);
                Ok(())
            },
            BorrowState::Shared(n) => {
                let next = if n < u32::MAX { n + 1 } else { n };
                self.lamports_borrow = BorrowState::Shared(next);
                Ok(())
            },
        }
    }

    /// Acquire an exclusive borrow of the balance; fails if any borrow is
    /// outstanding.
    pub fn try_borrow_mut_lamports(&mut self) -> (r: Result<(), ProgramError>)
        ensures
            old(self).lamports_borrow.admits_exclusive() ==> {
                &&& r == Ok::<(), ProgramError>(())
                &&& *final(self) == AccountInfo {
                    lamports_borrow: BorrowState::Exclusive,
                    ..*old(self)
                }
            },
            !old(self).lamports_borrow.admits_exclusive() ==> {
                &&& r == Err::<(), ProgramError>(ProgramError::BorrowConflict(
                    BorrowSource::Balance,
                    BorrowKind::Exclusive,
                ))
                &&& *final(self) == *old(self)
            },
    {
        match self.lamports_borrow {
            BorrowState::Free => {
                self.lamports_borrow = BorrowState::Exclusive;
                Ok(())
            },
            _ => Err(ProgramError::BorrowConflict(
                BorrowSource::Balance,
                BorrowKind::Exclusive,
            )),
        }
    }

    /// Release one outstanding borrow of the data buffer.
    pub fn release_data_borrow(&mut self)
        requires
            old(self).data_borrow != BorrowState::Free,
        ensures
            *final(self) == (AccountInfo {
                data_borrow: released(old(self).data_borrow),
                ..*old(self)
            }),
    {
        self.data_borrow = match self.data_borrow {
            BorrowState::Free => BorrowState::Free,
            BorrowState::Exclusive => BorrowState::Free,
            BorrowState::Shared(n) => if n <= 1 {
                BorrowState::Free
            } else {
                BorrowState::Shared(n - 1)
            },
        };
    }

    /// Release one outstanding borrow of the balance.
    pub fn release_lamports_borrow(&mut self)
        requires
            old(self).lamports_borrow != BorrowState::Free,
        ensures
            *final(self) == (AccountInfo {
                lamports_borrow: released(old(self).lamports_borrow),
                ..*old(self)
            }),
    {
        self.lamports_borrow = match self.lamports_borrow {
            BorrowState::Free => BorrowState::Free,
            BorrowState::Exclusive => BorrowState::Free,
            BorrowState::Shared(n) => if n <= 1 {
                BorrowState::Free
            } else {
                BorrowState::Shared(n - 1)
            },
        };
    }
}

/// The state after one more shared borrow is acquired. Saturates at the
/// count's maximum, which no realistic call chain reaches.
pub open spec fn shared_incremented(s: BorrowState) -> BorrowState {
    match s {
        BorrowState::Free => BorrowState::Shared(1),
        BorrowState::Shared(n) => if n < u32::MAX {
            BorrowState::Shared((n + 1) as u32)
        } else {
            BorrowState::Shared(n)
        },
        BorrowState::Exclusive => BorrowState::Exclusive,
    }
}

/// The state after one outstanding borrow is released.
pub open spec fn released(s: BorrowState) -> BorrowState {
    match s {
        BorrowState::Free => BorrowState::Free,
        BorrowState::Exclusive => BorrowState::Free,
        BorrowState::Shared(n) => if n <= 1 {
            BorrowState::Free
        } else {
            BorrowState::Shared((n - 1) as u32)
        },
    }
}

/// A caller-held handle to a live account: its position in the caller's
/// account table, together with the identifier the caller believes stands
/// there. Dispatch validation re-checks the identifier positionally.
#[derive(Clone, Copy, Debug)]
pub struct AccountHandle {
    /// Position in the account table of the current call frame.
    pub index: usize,
    /// The identifier expected at that position.
    pub key: Pubkey,
}

/// A handle to the account at the given position of the table.
pub fn handle_of(set: &Vec<AccountInfo>, index: usize) -> (h: AccountHandle)
    requires
        index < set@.len(),
    ensures
        h.index == index,
        h.key == set@[index as int].key,
{
    AccountHandle { index, key: set[index].key }
}

} // verus!

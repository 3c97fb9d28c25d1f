use vstd::prelude::*;

use vstd::bytes::{
    lemma_auto_spec_u64_to_from_le_bytes, spec_u64_from_le_bytes, spec_u64_to_le_bytes,
};

use crate::account::{AccountInfo, BorrowState};
use crate::error::{ProgramError, ProgramResult};
use crate::instruction::{AccountMeta, SignerProof};
use crate::instructions::allocate_with_seed::allocate_with_seed_data;
use crate::instructions::create_account::create_account_data;
use crate::instructions::transfer::transfer_data;
use crate::pubkey::MAX_SEED_LEN;
use crate::runtime::mock::{
    log_views, same_except_logs, spec_keys_of, spec_lookup, spec_run, EntryKind, LogView,
    MockProgram, MockRuntime, MAX_CALL_DEPTH,
};
use crate::runtime::{borrow_failure, keys_aligned, spec_check_borrows_from, spec_validate, Runtime};

verus! {

/// Law: when every declared role is positionally aligned with its live
/// account and no account holds a borrow that conflicts with its role's
/// required access, checked-dispatch validation passes.
pub proof fn lemma_compatible_roles_validate(
    metas: Seq<AccountMeta>,
    handles: Seq<usize>,
    set: Seq<AccountInfo>,
)
    requires
        handles.len() >= metas.len(),
        keys_aligned(metas, handles, set),
        forall|i: int|
            0 <= i < metas.len() ==> borrow_failure(metas[i], set[#[trigger] handles[i] as int])
                is None,
    ensures
        spec_validate(metas, handles, set) == Ok::<(), ProgramError>(()),
{
    lemma_borrows_from_ok(metas, handles, set, 0);
}

/// Law: when every declared role is positionally aligned with its live
/// account and no account named by a role holds any outstanding borrow,
/// checked-dispatch validation passes. In particular, a dispatch that
/// failed only for a borrow held by an enclosing frame passes once that
/// borrow is released.
pub proof fn lemma_aligned_free_validates(
    metas: Seq<AccountMeta>,
    handles: Seq<usize>,
    set: Seq<AccountInfo>,
)
    requires
        handles.len() >= metas.len(),
        forall|i: int| 0 <= i < metas.len() ==> (#[trigger] handles[i]) < set.len(),
        forall|i: int|
            0 <= i < metas.len() ==> set[#[trigger] handles[i] as int].key@ == metas[i].pubkey@,
        forall|i: int|
            0 <= i < metas.len() ==> set[#[trigger] handles[i] as int].data_borrow
                == BorrowState::Free,
        forall|i: int|
            0 <= i < metas.len() ==> set[#[trigger] handles[i] as int].lamports_borrow
                == BorrowState::Free,
    ensures
        spec_validate(metas, handles, set) == Ok::<(), ProgramError>(()),
{
    lemma_compatible_roles_validate(metas, handles, set);
}

/// The borrow pass from position `i` on passes when every remaining role
/// can be granted its access.
proof fn lemma_borrows_from_ok(
    metas: Seq<AccountMeta>,
    handles: Seq<usize>,
    set: Seq<AccountInfo>,
    i: int,
)
    requires
        0 <= i <= metas.len(),
        handles.len() >= metas.len(),
        forall|j: int|
            0 <= j < metas.len() ==> borrow_failure(metas[j], set[#[trigger] handles[j] as int])
                is None,
    ensures
        spec_check_borrows_from(metas, handles, set, i) == Ok::<(), ProgramError>(()),
    decreases metas.len() - i,
{
    if i < metas.len() {
        lemma_borrows_from_ok(metas, handles, set, i + 1);
    }
}

/// Law: on a descriptor that passes validation, a checked dispatch through
/// the simulated backend is behaviorally equivalent to an unchecked one:
/// the very same relation between the state before, the state after, the
/// accounts and the result holds of both.
pub proof fn lemma_checked_matches_unchecked(
    pre: MockRuntime,
    post: MockRuntime,
    target: Seq<u8>,
    metas: Seq<AccountMeta>,
    data: Seq<u8>,
    handles: Seq<usize>,
    set_pre: Seq<AccountInfo>,
    set_post: Seq<AccountInfo>,
    signers: Seq<SignerProof>,
    r: ProgramResult,
)
    requires
        spec_validate(metas, handles, set_pre) is Ok,
    ensures
        MockRuntime::invoke_post(
            pre,
            post,
            target,
            metas,
            data,
            handles,
            set_pre,
            set_post,
            signers,
            r,
        ) <==> MockRuntime::invoke_unchecked_post(
            pre,
            post,
            target,
            metas,
            data,
            handles,
            set_pre,
            set_post,
            signers,
            r,
        ),
{
}

/// Law: with fewer live accounts than declared roles, a checked dispatch
/// through the simulated backend fails with the arity error and never
/// reaches any program: the registry, the log and the accounts are left
/// exactly as they were.
pub proof fn lemma_insufficient_accounts(
    pre: MockRuntime,
    post: MockRuntime,
    target: Seq<u8>,
    metas: Seq<AccountMeta>,
    data: Seq<u8>,
    handles: Seq<usize>,
    set_pre: Seq<AccountInfo>,
    set_post: Seq<AccountInfo>,
    signers: Seq<SignerProof>,
    r: ProgramResult,
)
    requires
        handles.len() < metas.len(),
        MockRuntime::invoke_post(
            pre,
            post,
            target,
            metas,
            data,
            handles,
            set_pre,
            set_post,
            signers,
            r,
        ),
    ensures
        r == Err::<(), ProgramError>(ProgramError::InsufficientAccounts),
        post.logs == pre.logs,
        same_except_logs(pre, post),
        set_post == set_pre,
{
}

/// Law: any positional identifier mismatch — at whichever position, and
/// whatever borrows other accounts may hold — makes a checked dispatch
/// through the simulated backend fail with the mismatch error, before any
/// borrow is examined, and never reach any program.
pub proof fn lemma_positional_mismatch(
    pre: MockRuntime,
    post: MockRuntime,
    target: Seq<u8>,
    metas: Seq<AccountMeta>,
    data: Seq<u8>,
    handles: Seq<usize>,
    set_pre: Seq<AccountInfo>,
    set_post: Seq<AccountInfo>,
    signers: Seq<SignerProof>,
    r: ProgramResult,
    k: int,
)
    requires
        handles.len() >= metas.len(),
        0 <= k < metas.len(),
        set_pre[handles[k] as int].key@ != metas[k].pubkey@,
        MockRuntime::invoke_post(
            pre,
            post,
            target,
            metas,
            data,
            handles,
            set_pre,
            set_post,
            signers,
            r,
        ),
    ensures
        r == Err::<(), ProgramError>(ProgramError::ArgumentMismatch),
        post.logs == pre.logs,
        same_except_logs(pre, post),
        set_post == set_pre,
{
    assert(!keys_aligned(metas, handles, set_pre)) by {
        assert(set_pre[handles[k] as int].key@ != metas[k].pubkey@);
    }
}

/// Law: when the roles are positionally aligned and the first role whose
/// access cannot be granted names an account whose data buffer is
/// exclusively held by an enclosing frame, a checked dispatch through the
/// simulated backend fails with a borrow conflict on that buffer — an
/// exclusive conflict for a writable role, a shared one for a readonly
/// role — and never reaches any program. Together with
/// `lemma_valid_dispatch_succeeds`, releasing the outer borrow makes the
/// otherwise-identical dispatch succeed.
pub proof fn lemma_borrow_conflict(
    pre: MockRuntime,
    post: MockRuntime,
    target: Seq<u8>,
    metas: Seq<AccountMeta>,
    data: Seq<u8>,
    handles: Seq<usize>,
    set_pre: Seq<AccountInfo>,
    set_post: Seq<AccountInfo>,
    signers: Seq<SignerProof>,
    r: ProgramResult,
    k: int,
)
    requires
        handles.len() >= metas.len(),
        0 <= k < metas.len(),
        keys_aligned(metas, handles, set_pre),
        set_pre[handles[k] as int].data_borrow == BorrowState::Exclusive,
        forall|j: int|
            0 <= j < k ==> borrow_failure(metas[j], set_pre[#[trigger] handles[j] as int]) is None,
        MockRuntime::invoke_post(
            pre,
            post,
            target,
            metas,
            data,
            handles,
            set_pre,
            set_post,
            signers,
            r,
        ),
    ensures
        r == Err::<(), ProgramError>(ProgramError::BorrowConflict(
            crate::error::BorrowSource::Data,
            if metas[k].is_writable {
                crate::error::BorrowKind::Exclusive
            } else {
                crate::error::BorrowKind::Shared
            },
        )),
        post.logs == pre.logs,
        same_except_logs(pre, post),
        set_post == set_pre,
{
    crate::runtime::lemma_borrows_skip(metas, handles, set_pre, k);
}

/// Law: the fields encoded into a transfer payload decode back from their
/// documented offsets exactly.
pub proof fn lemma_transfer_round_trip(lamports: u64)
    ensures
        transfer_data(lamports).len() == 12,
        spec_u64_from_le_bytes(transfer_data(lamports).subrange(4, 12)) == lamports,
{
    lemma_auto_spec_u64_to_from_le_bytes();
    assert(transfer_data(lamports).subrange(4, 12) =~= spec_u64_to_le_bytes(lamports));
}

/// Law: the fields encoded into an account-creation payload decode back
/// from their documented offsets exactly.
pub proof fn lemma_create_account_round_trip(lamports: u64, space: u64, owner: Seq<u8>)
    requires
        owner.len() == 32,
    ensures
        create_account_data(lamports, space, owner).len() == 52,
        spec_u64_from_le_bytes(create_account_data(lamports, space, owner).subrange(4, 12))
            == lamports,
        spec_u64_from_le_bytes(create_account_data(lamports, space, owner).subrange(12, 20))
            == space,
        create_account_data(lamports, space, owner).subrange(20, 52) == owner,
{
    lemma_auto_spec_u64_to_from_le_bytes();
    let d = create_account_data(lamports, space, owner);
    assert(d.subrange(4, 12) =~= spec_u64_to_le_bytes(lamports));
    assert(d.subrange(12, 20) =~= spec_u64_to_le_bytes(space));
    assert(d.subrange(20, 52) =~= owner);
}

/// Law: the fields encoded into a seeded-allocation payload decode back
/// from their documented offsets exactly, and the payload's length is the
/// header, the seed, and the trailer — not the buffer's capacity.
pub proof fn lemma_allocate_with_seed_round_trip(
    base: Seq<u8>,
    seed: Seq<u8>,
    space: u64,
    owner: Seq<u8>,
)
    requires
        base.len() == 32,
        owner.len() == 32,
        seed.len() <= MAX_SEED_LEN,
    ensures
        allocate_with_seed_data(base, seed, space, owner).len() == 84 + seed.len(),
        allocate_with_seed_data(base, seed, space, owner).subrange(4, 36) == base,
        spec_u64_from_le_bytes(allocate_with_seed_data(base, seed, space, owner).subrange(36, 44))
            == seed.len(),
        allocate_with_seed_data(base, seed, space, owner).subrange(44, 44 + seed.len() as int)
            == seed,
        spec_u64_from_le_bytes(
            allocate_with_seed_data(base, seed, space, owner).subrange(
                44 + seed.len() as int,
                52 + seed.len() as int,
            ),
        ) == space,
        allocate_with_seed_data(base, seed, space, owner).subrange(
            52 + seed.len() as int,
            84 + seed.len() as int,
        ) == owner,
{
    lemma_auto_spec_u64_to_from_le_bytes();
    let d = allocate_with_seed_data(base, seed, space, owner);
    assert(d.subrange(4, 36) =~= base);
    assert(d.subrange(36, 44) =~= spec_u64_to_le_bytes(seed.len() as u64));
    assert(d.subrange(44, 44 + seed.len() as int) =~= seed);
    assert(d.subrange(44 + seed.len() as int, 52 + seed.len() as int) =~= spec_u64_to_le_bytes(
        space,
    ));
    assert(d.subrange(52 + seed.len() as int, 84 + seed.len() as int) =~= owner);
}


/// Law: on a descriptor that passes validation, when the target is bound
/// to an executable entry whose behaviour succeeds, a checked dispatch
/// through the simulated backend succeeds, and the log gains exactly that
/// program's entry mark — carrying the dispatched account identifiers —
/// and its exit mark. With `lemma_aligned_free_validates`, a dispatch that
/// failed only for an enclosing frame's borrow succeeds this way once that
/// borrow is released.
pub proof fn lemma_valid_dispatch_succeeds(
    pre: MockRuntime,
    post: MockRuntime,
    target: Seq<u8>,
    metas: Seq<AccountMeta>,
    data: Seq<u8>,
    handles: Seq<usize>,
    set_pre: Seq<AccountInfo>,
    set_post: Seq<AccountInfo>,
    signers: Seq<SignerProof>,
    r: ProgramResult,
)
    requires
        spec_validate(metas, handles, set_pre) is Ok,
        ({
            let found = spec_lookup(pre.entries@, target);
            &&& found is Some
            &&& found->Some_0.kind == EntryKind::Program
            &&& (found->Some_0.id as int) < pre.program_accounts@.len()
            &&& pre.program_accounts@[found->Some_0.id as int].data == MockProgram::Succeed
        }),
        MockRuntime::invoke_post(
            pre,
            post,
            target,
            metas,
            data,
            handles,
            set_pre,
            set_post,
            signers,
            r,
        ),
    ensures
        r == Ok::<(), ProgramError>(()),
        ({
            let e = spec_lookup(pre.entries@, target)->Some_0;
            log_views(post.logs@) == log_views(pre.logs@) + seq![
                LogView::Enter(e.name@, spec_keys_of(handles, set_pre)),
                LogView::Exit(e.name@),
            ]
        }),
{
    let e = spec_lookup(pre.entries@, target)->Some_0;
    let run = spec_run(
        pre.entries@,
        pre.program_accounts@,
        target,
        metas,
        data,
        handles,
        set_pre,
        MAX_CALL_DEPTH as nat,
    );
    assert(run.0 =~= seq![
        LogView::Enter(e.name@, spec_keys_of(handles, set_pre)),
        LogView::Exit(e.name@),
    ]);
}

/// Law: on a descriptor that passes validation, when the target's
/// behaviour is one nested dispatch into a second program whose behaviour
/// succeeds, the checked dispatch succeeds and the log shows exactly one
/// nested entry of the second program — with the very same account
/// identifiers — nested between the first program's marks.
pub proof fn lemma_multi_hop(
    pre: MockRuntime,
    post: MockRuntime,
    target: Seq<u8>,
    next: crate::pubkey::Pubkey,
    metas: Seq<AccountMeta>,
    data: Seq<u8>,
    handles: Seq<usize>,
    set_pre: Seq<AccountInfo>,
    set_post: Seq<AccountInfo>,
    signers: Seq<SignerProof>,
    r: ProgramResult,
)
    requires
        spec_validate(metas, handles, set_pre) is Ok,
        ({
            let found = spec_lookup(pre.entries@, target);
            &&& found is Some
            &&& found->Some_0.kind == EntryKind::Program
            &&& (found->Some_0.id as int) < pre.program_accounts@.len()
            &&& pre.program_accounts@[found->Some_0.id as int].data == MockProgram::Invoke(next)
        }),
        ({
            let found = spec_lookup(pre.entries@, next@);
            &&& found is Some
            &&& found->Some_0.kind == EntryKind::Program
            &&& (found->Some_0.id as int) < pre.program_accounts@.len()
            &&& pre.program_accounts@[found->Some_0.id as int].data == MockProgram::Succeed
        }),
        MockRuntime::invoke_post(
            pre,
            post,
            target,
            metas,
            data,
            handles,
            set_pre,
            set_post,
            signers,
            r,
        ),
    ensures
        r == Ok::<(), ProgramError>(()),
        ({
            let e1 = spec_lookup(pre.entries@, target)->Some_0;
            let e2 = spec_lookup(pre.entries@, next@)->Some_0;
            let keys = spec_keys_of(handles, set_pre);
            log_views(post.logs@) == log_views(pre.logs@) + seq![
                LogView::Enter(e1.name@, keys),
                LogView::Enter(e2.name@, keys),
                LogView::Exit(e2.name@),
                LogView::Exit(e1.name@),
            ]
        }),
{
    let e1 = spec_lookup(pre.entries@, target)->Some_0;
    let e2 = spec_lookup(pre.entries@, next@)->Some_0;
    let keys = spec_keys_of(handles, set_pre);
    let run1 = spec_run(
        pre.entries@,
        pre.program_accounts@,
        target,
        metas,
        data,
        handles,
        set_pre,
        MAX_CALL_DEPTH as nat,
    );
    let run2 = spec_run(
        pre.entries@,
        pre.program_accounts@,
        next@,
        metas,
        data,
        handles,
        set_pre,
        (MAX_CALL_DEPTH - 1) as nat,
    );
    assert(run2.0 =~= seq![LogView::Enter(e2.name@, keys), LogView::Exit(e2.name@)]);
    assert(run1.0 =~= seq![LogView::Enter(e1.name@, keys)] + run2.0 + seq![
        LogView::Exit(e1.name@),
    ]);
    assert(run1.0 =~= seq![
        LogView::Enter(e1.name@, keys),
        LogView::Enter(e2.name@, keys),
        LogView::Exit(e2.name@),
        LogView::Exit(e1.name@),
    ]);
}

} // verus!

use cpi_runtime::account::{handle_of, AccountInfo};
use cpi_runtime::error::{BorrowKind, BorrowSource, ProgramError};
use cpi_runtime::instruction::{AccountMeta, Instruction, SignerProof};
use cpi_runtime::instructions::initialize_nonce_account::InitializeNonceAccount;
use cpi_runtime::instructions::transfer::Transfer;
use cpi_runtime::invoke::{AccountType, CanInvoke, ConstAccounts, Invoke, SliceAccounts};
use cpi_runtime::runtime::blackbox::BlackBoxRuntime;
use cpi_runtime::runtime::mock::{
    LogEntry, MockAccount, MockProgram, MockProgramAccount, MockRuntime,
};
use cpi_runtime::runtime::Runtime;
use cpi_runtime::Pubkey;

fn key(fill: u8) -> Pubkey {
    Pubkey { bytes: [fill; 32] }
}

fn account(fill: u8) -> AccountInfo {
    AccountInfo::new(key(fill), false, true, key(0), 1_000, vec![])
}

fn program_account(fill: u8, behaviour: MockProgram) -> MockProgramAccount {
    MockProgramAccount::new_program(false, false, key(fill), key(0), 0, behaviour)
}

/// A descriptor targeting the program, with both accounts writable.
fn descriptor(target: Pubkey, a: Pubkey, b: Pubkey) -> Instruction {
    Instruction {
        program_id: target,
        accounts: vec![AccountMeta::writable(&a), AccountMeta::writable(&b)],
        data: vec![1, 2, 3],
    }
}

fn no_signers() -> Vec<SignerProof> {
    Vec::new()
}

#[test]
fn checked_dispatch_succeeds_when_aligned_and_free() {
    let mut rt = MockRuntime::init();
    rt.register_program_account("prog", program_account(9, MockProgram::Succeed));
    let mut set = vec![account(1), account(2)];
    let ix = descriptor(key(9), key(1), key(2));
    let r = rt.invoke_signed(&ix, &vec![0, 1], &mut set, &no_signers());
    assert_eq!(r, Ok(()));
    assert_eq!(rt.logs.len(), 2);
    assert_eq!(
        rt.logs[0],
        LogEntry::Enter("prog".to_string(), vec![key(1), key(2)])
    );
    assert_eq!(rt.logs[1], LogEntry::Exit("prog".to_string()));
}

#[test]
fn checked_matches_unchecked_on_valid_input() {
    // The same registry and accounts, dispatched once checked and once
    // unchecked: identical results and identical logs.
    let mut rt1 = MockRuntime::init();
    rt1.register_program_account("prog", program_account(9, MockProgram::Succeed));
    let mut rt2 = MockRuntime::init();
    rt2.register_program_account("prog", program_account(9, MockProgram::Succeed));
    let mut set = vec![account(1), account(2)];
    let ix = descriptor(key(9), key(1), key(2));
    let checked = rt1.invoke_signed(&ix, &vec![0, 1], &mut set, &no_signers());
    let unchecked = rt2.invoke_signed_access_unchecked(&ix, &vec![0, 1], &mut set, &no_signers());
    assert_eq!(checked, unchecked);
    assert_eq!(rt1.logs, rt2.logs);
}

#[test]
fn insufficient_accounts_never_reach_the_backend() {
    let mut rt = MockRuntime::init();
    rt.register_program_account("prog", program_account(9, MockProgram::Succeed));
    let mut set = vec![account(1), account(2)];
    let ix = descriptor(key(9), key(1), key(2));
    // One live handle against two declared roles.
    let r = rt.invoke_signed(&ix, &vec![0], &mut set, &no_signers());
    assert_eq!(r, Err(ProgramError::InsufficientAccounts));
    assert!(rt.logs.is_empty());
}

#[test]
fn positional_mismatch_fails_before_any_borrow() {
    let mut rt = MockRuntime::init();
    rt.register_program_account("prog", program_account(9, MockProgram::Succeed));
    let mut set = vec![account(1), account(2)];
    // Handles swapped against the declared role order.
    let ix = descriptor(key(9), key(1), key(2));
    let r = rt.invoke_signed(&ix, &vec![1, 0], &mut set, &no_signers());
    assert_eq!(r, Err(ProgramError::ArgumentMismatch));
    assert!(rt.logs.is_empty());
}

#[test]
fn mismatch_anywhere_wins_over_earlier_borrow_conflict() {
    // A borrow conflict at position 0 and a key mismatch at position 1:
    // every identity check runs before any borrow is examined, so the
    // mismatch decides the failure.
    let mut rt = MockRuntime::init();
    rt.register_program_account("prog", program_account(9, MockProgram::Succeed));
    let mut set = vec![account(1)];
    assert_eq!(set[0].try_borrow_mut_data(), Ok(()));
    let ix = descriptor(key(9), key(1), key(2));
    let r = rt.invoke_signed(&ix, &vec![0, 0], &mut set, &no_signers());
    assert_eq!(r, Err(ProgramError::ArgumentMismatch));
    assert!(rt.logs.is_empty());
}

#[test]
fn outstanding_exclusive_borrow_blocks_dispatch_until_released() {
    let mut rt = MockRuntime::init();
    rt.register_program_account("prog", program_account(9, MockProgram::Succeed));
    let mut set = vec![account(1), account(2)];
    // The enclosing frame holds the first account's data exclusively.
    assert_eq!(set[0].try_borrow_mut_data(), Ok(()));
    let ix = descriptor(key(9), key(1), key(2));
    let r = rt.invoke_signed(&ix, &vec![0, 1], &mut set, &no_signers());
    assert_eq!(
        r,
        Err(ProgramError::BorrowConflict(BorrowSource::Data, BorrowKind::Exclusive))
    );
    assert!(rt.logs.is_empty());
    // Releasing the borrow makes the otherwise-identical dispatch succeed.
    set[0].release_data_borrow();
    let r = rt.invoke_signed(&ix, &vec![0, 1], &mut set, &no_signers());
    assert_eq!(r, Ok(()));
}

#[test]
fn shared_borrow_blocks_writable_but_not_readonly_roles() {
    let mut rt = MockRuntime::init();
    rt.register_program_account("prog", program_account(9, MockProgram::Succeed));
    let mut set = vec![account(1)];
    assert_eq!(set[0].try_borrow_data(), Ok(()));
    // A writable role needs exclusive access: the shared borrow blocks it.
    let writable = Instruction {
        program_id: key(9),
        accounts: vec![AccountMeta::writable(&key(1))],
        data: vec![],
    };
    assert_eq!(
        rt.invoke_signed(&writable, &vec![0], &mut set, &no_signers()),
        Err(ProgramError::BorrowConflict(BorrowSource::Data, BorrowKind::Exclusive))
    );
    // A readonly role tolerates the shared borrow.
    let readonly = Instruction {
        program_id: key(9),
        accounts: vec![AccountMeta::readonly(&key(1))],
        data: vec![],
    };
    assert_eq!(rt.invoke_signed(&readonly, &vec![0], &mut set, &no_signers()), Ok(()));
}

#[test]
fn balance_borrow_conflicts_are_reported_as_such() {
    let mut rt = MockRuntime::init();
    rt.register_program_account("prog", program_account(9, MockProgram::Succeed));
    let mut set = vec![account(1)];
    assert_eq!(set[0].try_borrow_mut_lamports(), Ok(()));
    let writable = Instruction {
        program_id: key(9),
        accounts: vec![AccountMeta::writable(&key(1))],
        data: vec![],
    };
    assert_eq!(
        rt.invoke_signed(&writable, &vec![0], &mut set, &no_signers()),
        Err(ProgramError::BorrowConflict(BorrowSource::Balance, BorrowKind::Exclusive))
    );
}

#[test]
fn unknown_target_is_rejected() {
    let mut rt = MockRuntime::init();
    let mut set = vec![account(1), account(2)];
    let ix = descriptor(key(9), key(1), key(2));
    let r = rt.invoke_signed(&ix, &vec![0, 1], &mut set, &no_signers());
    assert_eq!(r, Err(ProgramError::UnknownTarget));
}

#[test]
fn data_entry_is_not_executable() {
    let mut rt = MockRuntime::init();
    rt.register_data_account(
        "bytes",
        MockAccount {
            is_signer: false,
            is_writable: true,
            key: key(9),
            owner: key(0),
            lamports: 0,
            data: vec![1, 2, 3],
        },
    );
    let mut set = vec![account(1), account(2)];
    let ix = descriptor(key(9), key(1), key(2));
    let r = rt.invoke_signed(&ix, &vec![0, 1], &mut set, &no_signers());
    assert_eq!(r, Err(ProgramError::TargetNotExecutable));
}

#[test]
fn program_failure_code_is_surfaced_after_the_log() {
    let mut rt = MockRuntime::init();
    rt.register_program_account("bad", program_account(9, MockProgram::Fail(42)));
    let mut set = vec![account(1), account(2)];
    let ix = descriptor(key(9), key(1), key(2));
    let r = rt.invoke_signed(&ix, &vec![0, 1], &mut set, &no_signers());
    assert_eq!(r, Err(ProgramError::HostReportedFailure(42)));
    // Enter and exit marks surround the failure for diagnosis.
    assert_eq!(rt.logs.len(), 2);
}

#[test]
fn multi_hop_dispatch_enters_the_nested_program_once() {
    let mut rt = MockRuntime::init();
    let p2 = key(8);
    rt.register_program_account("p1", program_account(9, MockProgram::Invoke(p2)));
    rt.register_program_account("p2", program_account(8, MockProgram::Succeed));
    let mut set = vec![account(1), account(2)];
    let ix = descriptor(key(9), key(1), key(2));
    let r = rt.invoke_signed(&ix, &vec![0, 1], &mut set, &no_signers());
    assert_eq!(r, Ok(()));
    assert_eq!(
        rt.logs,
        vec![
            LogEntry::Enter("p1".to_string(), vec![key(1), key(2)]),
            LogEntry::Enter("p2".to_string(), vec![key(1), key(2)]),
            LogEntry::Exit("p2".to_string()),
            LogEntry::Exit("p1".to_string()),
        ]
    );
    // Exactly one nested dispatch into p2, with identical account
    // identifiers.
    let nested: Vec<_> = rt
        .logs
        .iter()
        .filter(|e| matches!(e, LogEntry::Enter(name, _) if name == "p2"))
        .collect();
    assert_eq!(nested.len(), 1);
    match nested[0] {
        LogEntry::Enter(_, keys) => assert_eq!(keys, &vec![key(1), key(2)]),
        _ => unreachable!(),
    }
}

#[test]
fn sequenced_dispatches_run_in_order() {
    let mut rt = MockRuntime::init();
    rt.register_program_account(
        "p1",
        program_account(9, MockProgram::InvokeBoth(key(8), key(7))),
    );
    rt.register_program_account("p2", program_account(8, MockProgram::Succeed));
    rt.register_program_account("p3", program_account(7, MockProgram::Succeed));
    let mut set = vec![account(1), account(2)];
    let ix = descriptor(key(9), key(1), key(2));
    let r = rt.invoke_signed(&ix, &vec![0, 1], &mut set, &no_signers());
    assert_eq!(r, Ok(()));
    assert_eq!(
        rt.logs,
        vec![
            LogEntry::Enter("p1".to_string(), vec![key(1), key(2)]),
            LogEntry::Enter("p2".to_string(), vec![key(1), key(2)]),
            LogEntry::Exit("p2".to_string()),
            LogEntry::Enter("p3".to_string(), vec![key(1), key(2)]),
            LogEntry::Exit("p3".to_string()),
            LogEntry::Exit("p1".to_string()),
        ]
    );
}

#[test]
fn sequenced_dispatch_stops_at_the_first_failure() {
    let mut rt = MockRuntime::init();
    rt.register_program_account(
        "p1",
        program_account(9, MockProgram::InvokeBoth(key(8), key(7))),
    );
    rt.register_program_account("bad", program_account(8, MockProgram::Fail(13)));
    rt.register_program_account("never", program_account(7, MockProgram::Succeed));
    let mut set = vec![account(1), account(2)];
    let ix = descriptor(key(9), key(1), key(2));
    let r = rt.invoke_signed(&ix, &vec![0, 1], &mut set, &no_signers());
    assert_eq!(r, Err(ProgramError::HostReportedFailure(13)));
    // The second target is never entered.
    assert!(!rt
        .logs
        .iter()
        .any(|e| matches!(e, LogEntry::Enter(name, _) if name == "never")));
}

#[test]
fn self_invoking_program_exhausts_the_depth_budget() {
    let mut rt = MockRuntime::init();
    rt.register_program_account("loop", program_account(9, MockProgram::Invoke(key(9))));
    let mut set = vec![account(1), account(2)];
    let ix = descriptor(key(9), key(1), key(2));
    let r = rt.invoke_signed(&ix, &vec![0, 1], &mut set, &no_signers());
    assert_eq!(r, Err(ProgramError::CallDepthExceeded));
    // One enter and one exit mark per level of the chain.
    let enters = rt.logs.iter().filter(|e| matches!(e, LogEntry::Enter(..))).count();
    let exits = rt.logs.iter().filter(|e| matches!(e, LogEntry::Exit(..))).count();
    assert_eq!(enters, exits);
    assert!(enters > 1);
}

#[test]
fn typed_request_dispatches_through_the_mock() {
    let mut rt = MockRuntime::init();
    // The system program's identifier is all zero bytes.
    rt.register_program_account("system", program_account(0, MockProgram::Succeed));
    let mut set = vec![account(1), account(2)];
    let transfer = Transfer {
        from: handle_of(&set, 0),
        to: handle_of(&set, 1),
        lamports: 500,
    };
    let r = transfer.invoke(&mut rt, &mut set);
    assert_eq!(r, Ok(()));
    assert_eq!(rt.logs.len(), 2);
}

#[test]
fn invoker_interface_matches_direct_dispatch() {
    let mut rt = MockRuntime::init();
    rt.register_program_account("system", program_account(0, MockProgram::Succeed));
    let mut set = vec![account(1), account(2)];
    let transfer = Transfer {
        from: handle_of(&set, 0),
        to: handle_of(&set, 1),
        lamports: 500,
    };
    let r = transfer.as_invoker().invoke(&mut rt, &mut set);
    assert_eq!(r, Ok(()));
}

#[test]
fn blackbox_dispatch_always_succeeds_without_validation() {
    let mut rt = BlackBoxRuntime;
    // Mismatched arity would fail any checked backend; the benchmarking
    // backend discards everything.
    let mut set = vec![account(1), account(2)];
    let ix = descriptor(key(9), key(1), key(2));
    assert_eq!(rt.invoke_signed(&ix, &vec![0], &mut set, &no_signers()), Ok(()));
    rt.sol_log("discarded");
    rt.sol_log_64(1, 2, 3, 4, 5);
    rt.sol_log_data(&vec![vec![1, 2]]);
    rt.sol_log_compute_units();
}

#[test]
fn mock_log_operations_accumulate_structured_entries() {
    let mut rt = MockRuntime::init();
    rt.sol_log("hello");
    rt.sol_log_64(1, 2, 3, 4, 5);
    rt.sol_log_data(&vec![vec![7, 8], vec![9]]);
    rt.sol_log_compute_units();
    assert_eq!(
        rt.logs,
        vec![
            LogEntry::Message("hello".to_string()),
            LogEntry::Words(1, 2, 3, 4, 5),
            LogEntry::Bytes(vec![vec![7, 8], vec![9]]),
            LogEntry::ComputeUnits(0),
        ]
    );
}

#[test]
fn log_params_walks_every_account() {
    let mut rt = MockRuntime::init();
    let set = vec![account(1), account(2)];
    rt.sol_log_params(&set, &vec![5, 6]);
    // Per account: six labels, plus the trailing payload header; the
    // payload bytes are logged one word line each.
    let messages = rt
        .logs
        .iter()
        .filter(|e| matches!(e, LogEntry::Message(_)))
        .count();
    assert_eq!(messages, 2 * 6 + 1);
    let words = rt.logs.iter().filter(|e| matches!(e, LogEntry::Words(..))).count();
    assert_eq!(words, 2 * 4 + 2);
}

#[test]
fn nonce_initialization_dispatches_with_signer_proofs() {
    let mut rt = MockRuntime::init();
    rt.register_program_account("system", program_account(0, MockProgram::Succeed));
    let mut set = vec![account(1), account(2), account(3)];
    let request = InitializeNonceAccount {
        account: handle_of(&set, 0),
        recent_blockhashes_sysvar: handle_of(&set, 1),
        rent_sysvar: handle_of(&set, 2),
        authority: key(8),
    };
    assert_eq!(request.invoke(&mut rt, &mut set), Ok(()));
    let proofs = vec![SignerProof { seeds: vec![b"vault".to_vec()], bump: 254 }];
    assert_eq!(request.invoke_signed(&mut rt, &mut set, &proofs), Ok(()));
    assert_eq!(rt.logs.len(), 4);
}

#[test]
fn slice_accounts_render_the_same_handles() {
    let fixed = ConstAccounts { handles: [2, 0, 1] };
    let dynamic = SliceAccounts { handles: vec![2, 0, 1] };
    assert_eq!(fixed.to_handles(), dynamic.to_handles());
}

use cpi_runtime::account::AccountInfo;
use cpi_runtime::error::{BorrowKind, BorrowSource, ProgramError};
use cpi_runtime::mem::{sol_memcmp, sol_memcpy, sol_memmove, sol_memset};
use cpi_runtime::runtime::mock::{MockAccount, MockDataAccount, MockProgram, MockRuntime};
use cpi_runtime::runtime::Runtime;
use cpi_runtime::Pubkey;

fn key(fill: u8) -> Pubkey {
    Pubkey { bytes: [fill; 32] }
}

fn data_account(fill: u8, lamports: u64, data: Vec<u8>) -> MockDataAccount {
    MockDataAccount::new_data_account(true, false, key(fill), key(7), lamports, data)
}

#[test]
fn account_encoding_layout_is_exact() {
    let raw = data_account(3, 777, vec![1, 2, 3]).to_bytes();
    let mut expected: Vec<u8> = vec![0, 1, 0, 0];
    expected.extend(3u32.to_le_bytes());
    expected.extend([3u8; 32]);
    expected.extend([7u8; 32]);
    expected.extend(777u64.to_le_bytes());
    expected.extend(3u64.to_le_bytes());
    expected.extend([1, 2, 3]);
    assert_eq!(raw, expected);
}

#[test]
fn registered_data_account_reads_back() {
    let mut rt = MockRuntime::init();
    rt.register_data_account("vault", data_account(3, 777, vec![1, 2, 3]));
    let account = rt.get_data_account(&key(3)).expect("registered");
    assert_eq!(*account.key(), key(3));
    assert!(account.is_signer());
    assert!(!account.is_writable());
    assert_eq!(account.owner, key(7));
    assert_eq!(account.lamports(), 777);
    assert_eq!(account.data, vec![1, 2, 3]);
    assert!(rt.get_data_account(&key(4)).is_none());
}

#[test]
fn program_keys_do_not_resolve_as_data() {
    let mut rt = MockRuntime::init();
    rt.register_program_account(
        "prog",
        MockAccount {
            is_signer: false,
            is_writable: false,
            key: key(9),
            owner: key(0),
            lamports: 0,
            data: MockProgram::Succeed,
        },
    );
    assert!(rt.get_data_account(&key(9)).is_none());
}

#[test]
fn reregistering_a_key_replaces_its_binding() {
    let mut rt = MockRuntime::init();
    rt.register_data_account("old", data_account(3, 1, vec![1]));
    rt.register_data_account("new", data_account(3, 2, vec![2, 2]));
    let account = rt.get_data_account(&key(3)).expect("registered");
    assert_eq!(account.lamports(), 2);
    assert_eq!(account.data, vec![2, 2]);
}

#[test]
fn derived_address_matches_the_host_library() {
    let mut rt = MockRuntime::init();
    let program = key(11);
    let seeds = vec![b"vault".to_vec()];
    let ours = rt.sol_create_program_address(&seeds, &program);
    let theirs = solana_pubkey::Pubkey::create_program_address(
        &[b"vault"],
        &solana_pubkey::Pubkey::new_from_array([11; 32]),
    );
    match (ours, theirs) {
        (Ok(a), Ok(b)) => assert_eq!(a.bytes, b.to_bytes()),
        (Err(ProgramError::InvalidSeeds), Err(solana_pubkey::PubkeyError::InvalidSeeds)) => {},
        (a, b) => panic!("disagreement: {:?} vs {:?}", a, b),
    }
}

#[test]
fn derivation_rejects_oversized_seeds() {
    let mut rt = MockRuntime::init();
    let long = vec![vec![0u8; 33]];
    assert_eq!(
        rt.sol_create_program_address(&long, &key(1)),
        Err(ProgramError::MaxSeedLengthExceeded)
    );
    let many = vec![vec![0u8; 1]; 17];
    assert_eq!(
        rt.sol_create_program_address(&many, &key(1)),
        Err(ProgramError::MaxSeedLengthExceeded)
    );
}

#[test]
fn derivation_rejects_on_curve_results_for_some_seed() {
    // Roughly half of all hashes land on the curve, so among many
    // single-byte seeds both outcomes appear.
    let mut rt = MockRuntime::init();
    let mut saw_ok = false;
    let mut saw_invalid = false;
    for b in 0..=255u8 {
        match rt.sol_create_program_address(&vec![vec![b]], &key(1)) {
            Ok(_) => saw_ok = true,
            Err(ProgramError::InvalidSeeds) => saw_invalid = true,
            other => panic!("unexpected: {:?}", other),
        }
    }
    assert!(saw_ok);
    assert!(saw_invalid);
}

#[test]
fn found_address_verifies_against_its_bump() {
    let rt = MockRuntime::init();
    let mut rt2 = MockRuntime::init();
    let program = key(11);
    let seeds = vec![b"vault".to_vec()];
    let (address, bump) = rt.try_find_program_address(&seeds, &program).expect("found");
    let mut with_bump = seeds.clone();
    with_bump.push(vec![bump]);
    assert_eq!(rt2.sol_create_program_address(&with_bump, &program), Ok(address));
}

#[test]
fn bump_search_rejects_full_seed_lists() {
    let rt = MockRuntime::init();
    let many = vec![vec![0u8; 1]; 16];
    assert!(rt.try_find_program_address(&many, &key(1)).is_none());
}

#[test]
fn memcpy_copies_a_prefix() {
    let mut dst = vec![0u8; 5];
    sol_memcpy(&mut dst, &vec![1, 2, 3, 4, 5], 3);
    assert_eq!(dst, vec![1, 2, 3, 0, 0]);
}

#[test]
fn memmove_handles_overlap() {
    let mut buf = vec![1u8, 2, 3, 4, 5];
    sol_memmove(&mut buf, 1, 0, 4);
    assert_eq!(buf, vec![1, 1, 2, 3, 4]);
    let mut buf = vec![1u8, 2, 3, 4, 5];
    sol_memmove(&mut buf, 0, 1, 4);
    assert_eq!(buf, vec![2, 3, 4, 5, 5]);
}

#[test]
fn memcmp_reports_the_first_difference() {
    assert_eq!(sol_memcmp(&vec![1, 2, 3], &vec![1, 2, 3], 3), 0);
    assert_eq!(sol_memcmp(&vec![1, 2, 9], &vec![1, 5, 3], 3), 2 - 5);
    assert_eq!(sol_memcmp(&vec![1, 2, 9], &vec![1, 5, 3], 1), 0);
}

#[test]
fn memset_fills_a_prefix() {
    let mut buf = vec![1u8, 2, 3, 4];
    sol_memset(&mut buf, 9, 2);
    assert_eq!(buf, vec![9, 9, 3, 4]);
}

#[test]
fn borrow_counting_is_shared_but_exclusive_is_unique() {
    let mut a = AccountInfo::new(key(1), false, true, key(0), 10, vec![1]);
    assert_eq!(a.try_borrow_data(), Ok(()));
    assert_eq!(a.try_borrow_data(), Ok(()));
    assert_eq!(
        a.try_borrow_mut_data(),
        Err(ProgramError::BorrowConflict(BorrowSource::Data, BorrowKind::Exclusive))
    );
    a.release_data_borrow();
    a.release_data_borrow();
    assert_eq!(a.try_borrow_mut_data(), Ok(()));
    assert_eq!(
        a.try_borrow_data(),
        Err(ProgramError::BorrowConflict(BorrowSource::Data, BorrowKind::Shared))
    );
    a.release_data_borrow();
    assert_eq!(a.try_borrow_lamports(), Ok(()));
    assert_eq!(
        a.try_borrow_mut_lamports(),
        Err(ProgramError::BorrowConflict(BorrowSource::Balance, BorrowKind::Exclusive))
    );
}

#[test]
fn pubkey_equality_is_byte_equality() {
    let a = key(1);
    let mut b = key(1);
    assert!(a.key_eq(&b));
    b.bytes[31] = 2;
    assert!(!a.key_eq(&b));
    assert_eq!(Pubkey::system_program().bytes, [0u8; 32]);
}

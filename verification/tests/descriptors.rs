use cpi_runtime::account::AccountHandle;
use cpi_runtime::data::{read_pubkey, read_u64_le};
use cpi_runtime::instruction::AccountMeta;
use cpi_runtime::instructions::allocate::Allocate;
use cpi_runtime::instructions::allocate_with_seed::{
    AllocateWithSeed, ALLOCATE_WITH_SEED_CAPACITY,
};
use cpi_runtime::instructions::assign::Assign;
use cpi_runtime::instructions::assign_with_seed::AssignWithSeed;
use cpi_runtime::instructions::authorize_nonce_account::AuthorizeNonceAccount;
use cpi_runtime::instructions::create_account::CreateAccount;
use cpi_runtime::instructions::create_account_with_seed::CreateAccountWithSeed;
use cpi_runtime::instructions::initialize_nonce_account::InitializeNonceAccount;
use cpi_runtime::instructions::transfer::Transfer;
use cpi_runtime::instructions::transfer_with_seed::TransferWithSeed;
use cpi_runtime::instructions::update_nonce_account::UpdateNonceAccount;
use cpi_runtime::instructions::withdraw_nonce_account::WithdrawNonceAccount;
use cpi_runtime::instructions::advance_nonce_account::AdvanceNonceAccount;
use cpi_runtime::invoke::CanInvoke;
use cpi_runtime::Pubkey;

fn key(fill: u8) -> Pubkey {
    Pubkey { bytes: [fill; 32] }
}

fn handle(index: usize, fill: u8) -> AccountHandle {
    AccountHandle { index, key: key(fill) }
}

#[test]
fn transfer_descriptor() {
    let transfer = Transfer { from: handle(0, 1), to: handle(1, 2), lamports: 500 };
    let parts = transfer.invoke_parts();
    let payload = parts.data.payload();
    assert_eq!(payload.len(), 12);
    assert_eq!(&payload[0..4], &[2, 0, 0, 0]);
    assert_eq!(&payload[4..12], &500u64.to_le_bytes());
    assert_eq!(
        parts.account_metas,
        vec![
            AccountMeta { pubkey: key(1), is_writable: true, is_signer: true },
            AccountMeta { pubkey: key(2), is_writable: true, is_signer: false },
        ]
    );
    assert_eq!(parts.program_id, Pubkey { bytes: [0; 32] });
    let ix = parts.instruction();
    assert_eq!(ix.data, payload);
    assert_eq!(ix.accounts, parts.account_metas);
}

#[test]
fn transfer_round_trip() {
    let transfer = Transfer { from: handle(0, 1), to: handle(1, 2), lamports: 1_000_000 };
    let payload = transfer.invoke_parts().data.payload();
    assert_eq!(read_u64_le(&payload, 4), 1_000_000);
}

#[test]
fn seeded_allocate_descriptor() {
    let request = AllocateWithSeed {
        account: handle(0, 3),
        base: handle(1, 4),
        seed: b"vault".to_vec(),
        space: 128,
        owner: key(5),
    };
    let parts = request.invoke_parts();
    // The valid payload covers the header, the seed and the trailer, not
    // the whole physical buffer.
    assert_eq!(parts.data.payload_len(), 44 + 5 + 40);
    assert_eq!(parts.data.capacity(), ALLOCATE_WITH_SEED_CAPACITY);
    assert_ne!(parts.data.payload_len(), parts.data.capacity());
    let payload = parts.data.payload();
    assert_eq!(&payload[0..4], &[9, 0, 0, 0]);
    assert_eq!(&payload[4..36], &[4u8; 32]);
    assert_eq!(read_u64_le(&payload, 36), 5);
    assert_eq!(&payload[44..49], b"vault");
    assert_eq!(read_u64_le(&payload, 49), 128);
    assert_eq!(read_pubkey(&payload, 57), key(5));
}

#[test]
fn allocate_descriptor() {
    let parts = Allocate { account: handle(0, 1), space: 42 }.invoke_parts();
    let payload = parts.data.payload();
    assert_eq!(&payload[0..4], &[8, 0, 0, 0]);
    assert_eq!(read_u64_le(&payload, 4), 42);
    assert_eq!(
        parts.account_metas,
        vec![AccountMeta { pubkey: key(1), is_writable: true, is_signer: true }]
    );
}

#[test]
fn assign_descriptor() {
    let parts = Assign { account: handle(0, 1), owner: key(9) }.invoke_parts();
    let payload = parts.data.payload();
    assert_eq!(payload.len(), 36);
    assert_eq!(&payload[0..4], &[1, 0, 0, 0]);
    assert_eq!(read_pubkey(&payload, 4), key(9));
}

#[test]
fn assign_with_seed_descriptor() {
    let parts = AssignWithSeed {
        account: handle(0, 1),
        base: handle(1, 2),
        seed: b"seat".to_vec(),
        owner: key(9),
    }
    .invoke_parts();
    let payload = parts.data.payload();
    assert_eq!(payload.len(), 44 + 4 + 32);
    assert_eq!(&payload[0..4], &[10, 0, 0, 0]);
    assert_eq!(read_pubkey(&payload, 4), key(2));
    assert_eq!(read_u64_le(&payload, 36), 4);
    assert_eq!(&payload[44..48], b"seat");
    assert_eq!(read_pubkey(&payload, 48), key(9));
    // The assigned account is writable but does not sign: the base
    // account at position 1 supplies the signature, which is the point of
    // seed-derived addresses.
    assert_eq!(
        parts.account_metas,
        vec![
            AccountMeta { pubkey: key(1), is_writable: true, is_signer: false },
            AccountMeta { pubkey: key(2), is_writable: false, is_signer: true },
        ]
    );
}

#[test]
fn create_account_descriptor() {
    let parts = CreateAccount {
        from: handle(0, 1),
        to: handle(1, 2),
        lamports: 1_000,
        space: 64,
        owner: key(7),
    }
    .invoke_parts();
    let payload = parts.data.payload();
    assert_eq!(payload.len(), 52);
    assert_eq!(&payload[0..4], &[0, 0, 0, 0]);
    assert_eq!(read_u64_le(&payload, 4), 1_000);
    assert_eq!(read_u64_le(&payload, 12), 64);
    assert_eq!(read_pubkey(&payload, 20), key(7));
    assert_eq!(
        parts.account_metas,
        vec![
            AccountMeta { pubkey: key(1), is_writable: true, is_signer: true },
            AccountMeta { pubkey: key(2), is_writable: true, is_signer: true },
        ]
    );
}

#[test]
fn create_account_with_seed_descriptor() {
    let parts = CreateAccountWithSeed {
        from: handle(0, 1),
        to: handle(1, 2),
        base: Some(handle(2, 3)),
        seed: b"pool".to_vec(),
        lamports: 11,
        space: 22,
        owner: key(7),
    }
    .invoke_parts();
    let payload = parts.data.payload();
    assert_eq!(payload.len(), 44 + 4 + 48);
    assert_eq!(&payload[0..4], &[3, 0, 0, 0]);
    assert_eq!(read_pubkey(&payload, 4), key(3));
    assert_eq!(read_u64_le(&payload, 36), 4);
    assert_eq!(&payload[44..48], b"pool");
    assert_eq!(read_u64_le(&payload, 48), 11);
    assert_eq!(read_u64_le(&payload, 56), 22);
    assert_eq!(read_pubkey(&payload, 64), key(7));
}

#[test]
fn create_account_with_seed_defaults_to_funder() {
    let parts = CreateAccountWithSeed {
        from: handle(0, 1),
        to: handle(1, 2),
        base: None,
        seed: b"pool".to_vec(),
        lamports: 11,
        space: 22,
        owner: key(7),
    }
    .invoke_parts();
    let payload = parts.data.payload();
    // Without a distinct base, the funding account stands in for it.
    assert_eq!(read_pubkey(&payload, 4), key(1));
    assert_eq!(parts.account_metas[2].pubkey, key(1));
    assert_eq!(parts.accounts.handles, [0, 1, 0]);
}

#[test]
fn transfer_with_seed_descriptor() {
    let parts = TransferWithSeed {
        from: handle(0, 1),
        base: handle(1, 2),
        to: handle(2, 3),
        lamports: 9_999,
        seed: b"pay".to_vec(),
        owner: key(7),
    }
    .invoke_parts();
    let payload = parts.data.payload();
    assert_eq!(payload.len(), 20 + 3 + 32);
    assert_eq!(&payload[0..4], &[11, 0, 0, 0]);
    assert_eq!(read_u64_le(&payload, 4), 9_999);
    assert_eq!(read_u64_le(&payload, 12), 3);
    assert_eq!(&payload[20..23], b"pay");
    assert_eq!(read_pubkey(&payload, 23), key(7));
    assert_eq!(parts.accounts.handles, [0, 1, 2]);
}

#[test]
fn nonce_descriptors() {
    let advance = AdvanceNonceAccount {
        account: handle(0, 1),
        recent_blockhashes_sysvar: handle(1, 2),
        authority: handle(2, 3),
    }
    .invoke_parts();
    assert_eq!(advance.data.payload(), vec![4, 0, 0, 0]);
    assert_eq!(
        advance.account_metas,
        vec![
            AccountMeta { pubkey: key(1), is_writable: true, is_signer: false },
            AccountMeta { pubkey: key(2), is_writable: false, is_signer: false },
            AccountMeta { pubkey: key(3), is_writable: false, is_signer: true },
        ]
    );

    let update = UpdateNonceAccount { account: handle(0, 1) }.invoke_parts();
    assert_eq!(update.data.payload(), vec![12, 0, 0, 0]);

    let initialize = InitializeNonceAccount {
        account: handle(0, 1),
        recent_blockhashes_sysvar: handle(1, 2),
        rent_sysvar: handle(2, 3),
        authority: key(8),
    }
    .invoke_parts();
    let payload = initialize.data.payload();
    assert_eq!(&payload[0..4], &[6, 0, 0, 0]);
    assert_eq!(read_pubkey(&payload, 4), key(8));

    let authorize = AuthorizeNonceAccount {
        account: handle(0, 1),
        authority: handle(1, 2),
        new_authority: key(6),
    }
    .invoke_parts();
    let payload = authorize.data.payload();
    assert_eq!(&payload[0..4], &[7, 0, 0, 0]);
    assert_eq!(read_pubkey(&payload, 4), key(6));

    let withdraw = WithdrawNonceAccount {
        account: handle(0, 1),
        recipient: handle(1, 2),
        recent_blockhashes_sysvar: handle(2, 3),
        rent_sysvar: handle(3, 4),
        authority: handle(4, 5),
        lamports: 77,
    }
    .invoke_parts();
    let payload = withdraw.data.payload();
    assert_eq!(&payload[0..4], &[5, 0, 0, 0]);
    assert_eq!(read_u64_le(&payload, 4), 77);
    assert_eq!(withdraw.accounts.handles, [0, 1, 2, 3, 4]);
}

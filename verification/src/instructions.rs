//! Typed invocation requests, one per call the system program accepts.
//!
//! Each request fixes its account count and order at compile time and
//! renders a wire descriptor with the exact binary layout the host
//! protocol dictates: a 4-byte little-endian discriminator, then
//! fixed-width fields, with variable-length seeds embedded behind a length
//! prefix inside a fixed-capacity buffer.

pub mod advance_nonce_account;
pub mod allocate;
pub mod allocate_with_seed;
pub mod assign;
pub mod assign_with_seed;
pub mod authorize_nonce_account;
pub mod create_account;
pub mod create_account_with_seed;
pub mod initialize_nonce_account;
pub mod transfer;
pub mod transfer_with_seed;
pub mod update_nonce_account;
pub mod withdraw_nonce_account;

pub use advance_nonce_account::AdvanceNonceAccount;
pub use allocate::Allocate;
pub use allocate_with_seed::AllocateWithSeed;
pub use assign::Assign;
pub use assign_with_seed::AssignWithSeed;
pub use authorize_nonce_account::AuthorizeNonceAccount;
pub use create_account::CreateAccount;
pub use create_account_with_seed::CreateAccountWithSeed;
pub use initialize_nonce_account::InitializeNonceAccount;
pub use transfer::Transfer;
pub use transfer_with_seed::TransferWithSeed;
pub use update_nonce_account::UpdateNonceAccount;
pub use withdraw_nonce_account::WithdrawNonceAccount;

use vstd::prelude::*;

use crate::pubkey::Pubkey;

verus! {

/// The declared role of one account in a wire descriptor: its identifier,
/// whether the callee may write to it, and whether it signs the call.
#[derive(Clone, Copy, Debug, PartialEq, Eq)]
pub struct AccountMeta {
    /// The account's identifier.
    pub pubkey: Pubkey,
    /// Whether the callee may write to the account.
    pub is_writable: bool,
    /// Whether the account signs the call.
    pub is_signer: bool,
}

/// A writable, signing role.
pub open spec fn writable_signer_meta(k: Pubkey) -> AccountMeta {
    AccountMeta { pubkey: k, is_writable: true, is_signer: true }
}

/// A writable, non-signing role.
pub open spec fn writable_meta(k: Pubkey) -> AccountMeta {
    AccountMeta { pubkey: k, is_writable: true, is_signer: false }
}

/// A readonly, signing role.
pub open spec fn readonly_signer_meta(k: Pubkey) -> AccountMeta {
    AccountMeta { pubkey: k, is_writable: false, is_signer: true }
}

/// A readonly, non-signing role.
pub open spec fn readonly_meta(k: Pubkey) -> AccountMeta {
    AccountMeta { pubkey: k, is_writable: false, is_signer: false }
}

impl AccountMeta {
    pub fn writable_signer(pubkey: &Pubkey) -> (m: AccountMeta)
        ensures
            m == writable_signer_meta(*pubkey),
    {
        AccountMeta { pubkey: *pubkey, is_writable: true, is_signer: true }
    }

    pub fn writable(pubkey: &Pubkey) -> (m: AccountMeta)
        ensures
            m == writable_meta(*pubkey),
    {
        AccountMeta { pubkey: *pubkey, is_writable: true, is_signer: false }
    }

    pub fn readonly_signer(pubkey: &Pubkey) -> (m: AccountMeta)
        ensures
            m == readonly_signer_meta(*pubkey),
    {
        AccountMeta { pubkey: *pubkey, is_writable: false, is_signer: true }
    }

    pub fn readonly(pubkey: &Pubkey) -> (m: AccountMeta)
        ensures
            m == readonly_meta(*pubkey),
    {
        AccountMeta { pubkey: *pubkey, is_writable: false, is_signer: false }
    }
}

/// A fully-encoded wire descriptor: the target program, the ordered account
/// roles, and the raw payload bytes. The ordering of the roles must match,
/// positionally, the live account handles passed at dispatch time; there is
/// no name-based binding.
#[derive(Clone, Debug)]
pub struct Instruction {
    /// The program to invoke.
    pub program_id: Pubkey,
    /// The ordered account roles.
    pub accounts: Vec<AccountMeta>,
    /// The payload bytes.
    pub data: Vec<u8>,
}

/// Derivation evidence substituting for a cryptographic signature on a
/// deterministically-derived account: the seed list and the bump that
/// completes it. Constructed immediately before a single dispatch and not
/// persisted.
#[derive(Clone, Debug)]
pub struct SignerProof {
    /// The derivation seeds.
    pub seeds: Vec<Vec<u8>>,
    /// The bump byte completing the derivation.
    pub bump: u8,
}

} // verus!

use vstd::prelude::*;

use crate::account::AccountHandle;
use crate::data::{push_u64_le, InstructionData};
use crate::instruction::{readonly_meta, readonly_signer_meta, writable_meta, AccountMeta};
use crate::invoke::{CanInvoke, ConstAccounts, InvokeParts, PartsModel};
use crate::pubkey::{spec_system_id, Pubkey};
use vstd::bytes::spec_u64_to_le_bytes;

verus! {

/// Withdraw funds from a nonce account.
///
/// The lamports withdrawn must leave the account balance above the rent
/// exempt reserve or at zero.
///
/// ### Accounts:
///   0. `[WRITE]` Nonce account
///   1. `[WRITE]` Recipient account
///   2. `[]` Recent blockhashes sysvar
///   3. `[]` Rent sysvar
///   4. `[SIGNER]` Nonce authority
pub struct WithdrawNonceAccount {
    /// Nonce account.
    pub account: AccountHandle,
    /// Recipient account.
    pub recipient: AccountHandle,
    /// Recent blockhashes sysvar.
    pub recent_blockhashes_sysvar: AccountHandle,
    /// Rent sysvar.
    pub rent_sysvar: AccountHandle,
    /// Nonce authority.
    pub authority: AccountHandle,
    /// Lamports to withdraw.
    pub lamports: u64,
}

/// The payload: the discriminator, then the lamports.
pub open spec fn withdraw_nonce_account_data(lamports: u64) -> Seq<u8> {
    seq![5u8, 0u8, 0u8, 0u8] + spec_u64_to_le_bytes(lamports)
}

impl CanInvoke for WithdrawNonceAccount {
    type Accounts = ConstAccounts<5>;

    open spec fn wf(&self) -> bool {
        true
    }

    open spec fn spec_parts(&self) -> PartsModel {
        PartsModel {
            program_id: spec_system_id(),
            handles: seq![
                self.account.index,
                self.recipient.index,
                self.recent_blockhashes_sysvar.index,
                self.rent_sysvar.index,
                self.authority.index,
            ],
            metas: seq![
                writable_meta(self.account.key),
                writable_meta(self.recipient.key),
                readonly_meta(self.recent_blockhashes_sysvar.key),
                readonly_meta(self.rent_sysvar.key),
                readonly_signer_meta(self.authority.key),
            ],
            data: withdraw_nonce_account_data(self.lamports),
        }
    }

    fn invoke_parts(&self) -> (p: InvokeParts<ConstAccounts<5>>) {
        let mut data: Vec<u8> = Vec::new();
        data.push(5);
        data.push(0);
        data.push(0);
        data.push(0);
        push_u64_le(&mut data, self.lamports);
        let mut metas: Vec<AccountMeta> = Vec::new();
        metas.push(AccountMeta::writable(&self.account.key));
        metas.push(AccountMeta::writable(&self.recipient.key));
        metas.push(AccountMeta::readonly(&self.recent_blockhashes_sysvar.key));
        metas.push(AccountMeta::readonly(&self.rent_sysvar.key));
        metas.push(AccountMeta::readonly_signer(&self.authority.key));
        let p = InvokeParts {
            program_id: Pubkey::system_program(),
            accounts: ConstAccounts {
                handles: [
                    self.account.index,
                    self.recipient.index,
                    self.recent_blockhashes_sysvar.index,
                    self.rent_sysvar.index,
                    self.authority.index,
                ],
            },
            account_metas: metas,
            data: InstructionData::Full(data),
        };
        proof {
            assert(p.model().handles =~= self.spec_parts().handles);
            assert(p.model().metas =~= self.spec_parts().metas);
            assert(p.model().data =~= self.spec_parts().data);
            assert(p.model().program_id =~= self.spec_parts().program_id);
            assert(p.model() =~= self.spec_parts());
        }
        p
    }
}

} // verus!

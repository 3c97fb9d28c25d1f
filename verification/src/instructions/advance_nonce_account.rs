use vstd::prelude::*;

use crate::account::AccountHandle;
use crate::data::InstructionData;
use crate::instruction::{readonly_meta, readonly_signer_meta, writable_meta, AccountMeta};
use crate::invoke::{CanInvoke, ConstAccounts, InvokeParts, PartsModel};
use crate::pubkey::{spec_system_id, Pubkey};

verus! {

/// Consume a stored nonce, replacing it with a successor.
///
/// ### Accounts:
///   0. `[WRITE]` Nonce account
///   1. `[]` Recent blockhashes sysvar
///   2. `[SIGNER]` Nonce authority
pub struct AdvanceNonceAccount {
    /// Nonce account.
    pub account: AccountHandle,
    /// Recent blockhashes sysvar.
    pub recent_blockhashes_sysvar: AccountHandle,
    /// Nonce authority.
    pub authority: AccountHandle,
}

/// The payload: the discriminator alone.
pub open spec fn advance_nonce_account_data() -> Seq<u8> {
    seq![4u8, 0u8, 0u8, 0u8]
}

impl CanInvoke for AdvanceNonceAccount {
    type Accounts = ConstAccounts<3>;

    open spec fn wf(&self) -> bool {
        true
    }

    open spec fn spec_parts(&self) -> PartsModel {
        PartsModel {
            program_id: spec_system_id(),
            handles: seq![
                self.account.index,
                self.recent_blockhashes_sysvar.index,
                self.authority.index,
            ],
            metas: seq![
                writable_meta(self.account.key),
                readonly_meta(self.recent_blockhashes_sysvar.key),
                readonly_signer_meta(self.authority.key),
            ],
            data: advance_nonce_account_data(),
        }
    }

    fn invoke_parts(&self) -> (p: InvokeParts<ConstAccounts<3>>) {
        let mut data: Vec<u8> = Vec::new();
        data.push(4);
        data.push(0);
        data.push(0);
        data.push(0);
        let mut metas: Vec<AccountMeta> = Vec::new();
        metas.push(AccountMeta::writable(&self.account.key));
        metas.push(AccountMeta::readonly(&self.recent_blockhashes_sysvar.key));
        metas.push(AccountMeta::readonly_signer(&self.authority.key));
        let p = InvokeParts {
            program_id: Pubkey::system_program(),
            accounts: ConstAccounts {
                handles: [
                    self.account.index,
                    self.recent_blockhashes_sysvar.index,
                    self.authority.index,
                ],
            },
            account_metas: metas,
            data: InstructionData::Full(data),
        };
        proof {
            assert(p.model().handles =~= self.spec_parts().handles);
            assert(p.model().metas =~= self.spec_parts().metas);
            assert(p.model().data =~= self.spec_parts().data);
            assert(p.model().program_id =~= self.spec_parts().program_id);
            assert(p.model() =~= self.spec_parts());
        }
        p
    }
}

} // verus!

use vstd::prelude::*;

use crate::account::AccountHandle;
use crate::data::{push_pubkey, InstructionData};
use crate::instruction::{readonly_signer_meta, writable_meta, AccountMeta};
use crate::invoke::{CanInvoke, ConstAccounts, InvokeParts, PartsModel};
use crate::pubkey::{spec_system_id, Pubkey};

verus! {

/// Change the entity authorized to execute nonce instructions on the
/// account.
///
/// ### Accounts:
///   0. `[WRITE]` Nonce account
///   1. `[SIGNER]` Nonce authority
pub struct AuthorizeNonceAccount {
    /// Nonce account.
    pub account: AccountHandle,
    /// Nonce authority.
    pub authority: AccountHandle,
    /// New entity authorized to execute nonce instructions on the account.
    pub new_authority: Pubkey,
}

/// The payload: the discriminator, then the new authority's key.
pub open spec fn authorize_nonce_account_data(new_authority: Seq<u8>) -> Seq<u8> {
    seq![7u8, 0u8, 0u8, 0u8] + new_authority
}

impl CanInvoke for AuthorizeNonceAccount {
    type Accounts = ConstAccounts<2>;

    open spec fn wf(&self) -> bool {
        true
    }

    open spec fn spec_parts(&self) -> PartsModel {
        PartsModel {
            program_id: spec_system_id(),
            handles: seq![self.account.index, self.authority.index],
            metas: seq![writable_meta(self.account.key), readonly_signer_meta(self.authority.key)],
            data: authorize_nonce_account_data(self.new_authority@),
        }
    }

    fn invoke_parts(&self) -> (p: InvokeParts<ConstAccounts<2>>) {
        let mut data: Vec<u8> = Vec::new();
        data.push(7);
        data.push(0);
        data.push(0);
        data.push(0);
        push_pubkey(&mut data, &self.new_authority);
        let mut metas: Vec<AccountMeta> = Vec::new();
        metas.push(AccountMeta::writable(&self.account.key));
        metas.push(AccountMeta::readonly_signer(&self.authority.key));
        let p = InvokeParts {
            program_id: Pubkey::system_program(),
            accounts: ConstAccounts { handles: [self.account.index, self.authority.index] },
            account_metas: metas,
            data: InstructionData::Full(data),
        };
        proof {
            assert(p.model().handles =~= self.spec_parts().handles);
            assert(p.model().metas =~= self.spec_parts().metas);
            assert(p.model().data =~= self.spec_parts().data);
            assert(p.model().program_id =~= self.spec_parts().program_id);
            assert(p.model() =~= self.spec_parts());
        }
        p
    }
}

} // verus!

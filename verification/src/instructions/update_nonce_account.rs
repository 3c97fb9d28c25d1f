use vstd::prelude::*;

use crate::account::AccountHandle;
use crate::data::InstructionData;
use crate::instruction::{writable_meta, AccountMeta};
use crate::invoke::{CanInvoke, ConstAccounts, InvokeParts, PartsModel};
use crate::pubkey::{spec_system_id, Pubkey};

verus! {

/// One-time idempotent upgrade of legacy nonce versions, bumping them out
/// of the chain blockhash domain.
///
/// ### Accounts:
///   0. `[WRITE]` Nonce account
pub struct UpdateNonceAccount {
    /// Nonce account.
    pub account: AccountHandle,
}

/// The payload: the discriminator alone.
pub open spec fn update_nonce_account_data() -> Seq<u8> {
    seq![12u8, 0u8, 0u8, 0u8]
}

impl CanInvoke for UpdateNonceAccount {
    type Accounts = ConstAccounts<1>;

    open spec fn wf(&self) -> bool {
        true
    }

    open spec fn spec_parts(&self) -> PartsModel {
        PartsModel {
            program_id: spec_system_id(),
            handles: seq![self.account.index],
            metas: seq![writable_meta(self.account.key)],
            data: update_nonce_account_data(),
        }
    }

    fn invoke_parts(&self) -> (p: InvokeParts<ConstAccounts<1>>) {
        let mut data: Vec<u8> = Vec::new();
        data.push(12);
        data.push(0);
        data.push(0);
        data.push(0);
        let mut metas: Vec<AccountMeta> = Vec::new();
        metas.push(AccountMeta::writable(&self.account.key));
        let p = InvokeParts {
            program_id: Pubkey::system_program(),
            accounts: ConstAccounts { handles: [self.account.index] },
            account_metas: metas,
            data: InstructionData::Full(data),
        };
        proof {
            assert(p.model().handles =~= self.spec_parts().handles);
            assert(p.model().metas =~= self.spec_parts().metas);
            assert(p.model().data =~= self.spec_parts().data);
            assert(p.model().program_id =~= self.spec_parts().program_id);
            assert(p.model() =~= self.spec_parts());
        }
        p
    }
}

} // verus!

use vstd::prelude::*;

use crate::account::AccountHandle;
use crate::data::{push_pubkey, InstructionData};
use crate::instruction::{writable_signer_meta, AccountMeta};
use crate::invoke::{CanInvoke, ConstAccounts, InvokeParts, PartsModel};
use crate::pubkey::{spec_system_id, Pubkey};

verus! {

/// Assign an account to a program.
///
/// ### Accounts:
///   0. `[WRITE, SIGNER]` Assigned account
pub struct Assign {
    /// Account to be assigned.
    pub account: AccountHandle,
    /// Program account to assign as owner.
    pub owner: Pubkey,
}

/// The payload of an assignment: the discriminator, then the owner key.
pub open spec fn assign_data(owner: Seq<u8>) -> Seq<u8> {
    seq![1u8, 0u8, 0u8, 0u8] + owner
}

impl CanInvoke for Assign {
    type Accounts = ConstAccounts<1>;

    open spec fn wf(&self) -> bool {
        true
    }

    open spec fn spec_parts(&self) -> PartsModel {
        PartsModel {
            program_id: spec_system_id(),
            handles: seq![self.account.index],
            metas: seq![writable_signer_meta(self.account.key)],
            data: assign_data(self.owner@),
        }
    }

    fn invoke_parts(&self) -> (p: InvokeParts<ConstAccounts<1>>) {
        let mut data: Vec<u8> = Vec::new();
        data.push(1);
        data.push(0);
        data.push(0);
        data.push(0);
        push_pubkey(&mut data, &self.owner);
        let mut metas: Vec<AccountMeta> = Vec::new();
        metas.push(AccountMeta::writable_signer(&self.account.key));
        let p = InvokeParts {
            program_id: Pubkey::system_program(),
            accounts: ConstAccounts { handles: [self.account.index] },
            account_metas: metas,
            data: InstructionData::Full(data),
        };
        proof {
            assert(p.model().handles =~= self.spec_parts().handles);
            assert(p.model().metas =~= self.spec_parts().metas);
            assert(p.model().data =~= self.spec_parts().data);
            assert(p.model().program_id =~= self.spec_parts().program_id);
            assert(p.model() =~= self.spec_parts());
        }
        p
    }
}

} // verus!

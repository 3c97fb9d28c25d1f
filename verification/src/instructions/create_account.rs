use vstd::prelude::*;

use crate::account::AccountHandle;
use crate::data::{push_pubkey, push_u64_le, InstructionData};
use crate::instruction::{writable_signer_meta, AccountMeta};
use crate::invoke::{CanInvoke, ConstAccounts, InvokeParts, PartsModel};
use crate::pubkey::{spec_system_id, Pubkey};
use vstd::bytes::spec_u64_to_le_bytes;

verus! {

/// Create a new account.
///
/// ### Accounts:
///   0. `[WRITE, SIGNER]` Funding account
///   1. `[WRITE, SIGNER]` New account
pub struct CreateAccount {
    /// Funding account.
    pub from: AccountHandle,
    /// New account.
    pub to: AccountHandle,
    /// Number of lamports to transfer to the new account.
    pub lamports: u64,
    /// Number of bytes of memory to allocate.
    pub space: u64,
    /// Address of program that will own the new account.
    pub owner: Pubkey,
}

/// The payload of an account creation: the discriminator, the lamports,
/// the space, then the owner key.
pub open spec fn create_account_data(lamports: u64, space: u64, owner: Seq<u8>) -> Seq<u8> {
    seq![0u8, 0u8, 0u8, 0u8] + spec_u64_to_le_bytes(lamports) + spec_u64_to_le_bytes(space) + owner
}

impl CanInvoke for CreateAccount {
    type Accounts = ConstAccounts<2>;

    open spec fn wf(&self) -> bool {
        true
    }

    open spec fn spec_parts(&self) -> PartsModel {
        PartsModel {
            program_id: spec_system_id(),
            handles: seq![self.from.index, self.to.index],
            metas: seq![writable_signer_meta(self.from.key), writable_signer_meta(self.to.key)],
            data: create_account_data(self.lamports, self.space, self.owner@),
        }
    }

    fn invoke_parts(&self) -> (p: InvokeParts<ConstAccounts<2>>) {
        let mut data: Vec<u8> = Vec::new();
        data.push(0);
        data.push(0);
        data.push(0);
        data.push(0);
        push_u64_le(&mut data, self.lamports);
        push_u64_le(&mut data, self.space);
        push_pubkey(&mut data, &self.owner);
        let mut metas: Vec<AccountMeta> = Vec::new();
        metas.push(AccountMeta::writable_signer(&self.from.key));
        metas.push(AccountMeta::writable_signer(&self.to.key));
        let p = InvokeParts {
            program_id: Pubkey::system_program(),
            accounts: ConstAccounts { handles: [self.from.index, self.to.index] },
            account_metas: metas,
            data: InstructionData::Full(data),
        };
        proof {
            assert(p.model().handles =~= self.spec_parts().handles);
            assert(p.model().metas =~= self.spec_parts().metas);
            assert(p.model().data =~= self.spec_parts().data);
            assert(p.model().program_id =~= self.spec_parts().program_id);
            assert(p.model() =~= self.spec_parts());
        }
        p
    }
}

} // verus!

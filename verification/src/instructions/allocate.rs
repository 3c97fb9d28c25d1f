use vstd::prelude::*;

use crate::account::AccountHandle;
use crate::data::{push_u64_le, InstructionData};
use crate::instruction::{writable_signer_meta, AccountMeta};
use crate::invoke::{CanInvoke, ConstAccounts, InvokeParts, PartsModel};
use crate::pubkey::{spec_system_id, Pubkey};
use vstd::bytes::spec_u64_to_le_bytes;

verus! {

/// Allocate space in a (possibly new) account without funding.
///
/// ### Accounts:
///   0. `[WRITE, SIGNER]` New account
pub struct Allocate {
    /// Account to be assigned.
    pub account: AccountHandle,
    /// Number of bytes of memory to allocate.
    pub space: u64,
}

/// The payload of an allocation: the discriminator, then the space.
pub open spec fn allocate_data(space: u64) -> Seq<u8> {
    seq![8u8, 0u8, 0u8, 0u8] + spec_u64_to_le_bytes(space)
}

impl CanInvoke for Allocate {
    type Accounts = ConstAccounts<1>;

    open spec fn wf(&self) -> bool {
        true
    }

    open spec fn spec_parts(&self) -> PartsModel {
        PartsModel {
            program_id: spec_system_id(),
            handles: seq![self.account.index],
            metas: seq![writable_signer_meta(self.account.key)],
            data: allocate_data(self.space),
        }
    }

    fn invoke_parts(&self) -> (p: InvokeParts<ConstAccounts<1>>) {
        let mut data: Vec<u8> = Vec::new();
        data.push(8);
        data.push(0);
        data.push(0);
        data.push(0);
        push_u64_le(&mut data, self.space);
        let mut metas: Vec<AccountMeta> = Vec::new();
        metas.push(AccountMeta::writable_signer(&self.account.key));
        let p = InvokeParts {
            program_id: Pubkey::system_program(),
            accounts: ConstAccounts { handles: [self.account.index] },
            account_metas: metas,
            data: InstructionData::Full(data),
        };
        proof {
            assert(p.model().handles =~= self.spec_parts().handles);
            assert(p.model().metas =~= self.spec_parts().metas);
            assert(p.model().data =~= self.spec_parts().data);
            assert(p.model().program_id =~= self.spec_parts().program_id);
            assert(p.model() =~= self.spec_parts());
        }
        p
    }
}

} // verus!

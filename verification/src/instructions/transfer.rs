use vstd::prelude::*;

use crate::account::{AccountHandle, AccountInfo};
use crate::data::{push_u64_le, InstructionData};
use crate::error::ProgramResult;
use crate::instruction::{writable_meta, writable_signer_meta, AccountMeta, SignerProof};
use crate::invoke::{AccountType, CanInvoke, ConstAccounts, InvokeParts, PartsModel};
use crate::pubkey::{spec_system_id, Pubkey};
use crate::runtime::{handles_in_range, Runtime};
use vstd::bytes::spec_u64_to_le_bytes;

verus! {

/// Transfer lamports.
///
/// ### Accounts:
///   0. `[WRITE, SIGNER]` Funding account
///   1. `[WRITE]` Recipient account
pub struct Transfer {
    /// Funding account.
    pub from: AccountHandle,
    /// Recipient account.
    pub to: AccountHandle,
    /// Amount of lamports to transfer.
    pub lamports: u64,
}

/// The payload of a transfer: the discriminator, then the amount.
pub open spec fn transfer_data(lamports: u64) -> Seq<u8> {
    seq![2u8, 0u8, 0u8, 0u8] + spec_u64_to_le_bytes(lamports)
}

impl CanInvoke for Transfer {
    type Accounts = ConstAccounts<2>;

    open spec fn wf(&self) -> bool {
        true
    }

    open spec fn spec_parts(&self) -> PartsModel {
        PartsModel {
            program_id: spec_system_id(),
            handles: seq![self.from.index, self.to.index],
            metas: seq![writable_signer_meta(self.from.key), writable_meta(self.to.key)],
            data: transfer_data(self.lamports),
        }
    }

    fn invoke_parts(&self) -> (p: InvokeParts<ConstAccounts<2>>) {
        let mut data: Vec<u8> = Vec::new();
        data.push(2);
        data.push(0);
        data.push(0);
        data.push(0);
        push_u64_le(&mut data, self.lamports);
        let mut metas: Vec<AccountMeta> = Vec::new();
        metas.push(AccountMeta::writable_signer(&self.from.key));
        metas.push(AccountMeta::writable(&self.to.key));
        let p = InvokeParts {
            program_id: Pubkey::system_program(),
            accounts: ConstAccounts { handles: [self.from.index, self.to.index] },
            account_metas: metas,
            data: InstructionData::Full(data),
        };
        proof {
            assert(p.model().handles =~= self.spec_parts().handles);
            assert(p.model().metas =~= self.spec_parts().metas);
            assert(p.model().data =~= self.spec_parts().data);
            assert(p.model().program_id =~= self.spec_parts().program_id);
            assert(p.model() =~= self.spec_parts());
        }
        p
    }
}

impl Transfer {
    /// Dispatch this transfer through a runtime, without signer proofs.
    pub fn invoke<R: Runtime>(&self, rt: &mut R, set: &mut Vec<AccountInfo>) -> (r: ProgramResult)
        requires
            handles_in_range(self.spec_parts().handles, old(set)@.len()),
        ensures
            R::invoke_post(
                *old(rt),
                *final(rt),
                self.spec_parts().program_id,
                self.spec_parts().metas,
                self.spec_parts().data,
                self.spec_parts().handles,
                old(set)@,
                final(set)@,
                Seq::<SignerProof>::empty(),
                r,
            ),
    {
        let signers: Vec<SignerProof> = Vec::new();
        self.invoke_signed(rt, set, &signers)
    }

    /// Dispatch this transfer through a runtime with the given signer
    /// proofs.
    pub fn invoke_signed<R: Runtime>(
        &self,
        rt: &mut R,
        set: &mut Vec<AccountInfo>,
        signers: &Vec<SignerProof>,
    ) -> (r: ProgramResult)
        requires
            handles_in_range(self.spec_parts().handles, old(set)@.len()),
        ensures
            R::invoke_post(
                *old(rt),
                *final(rt),
                self.spec_parts().program_id,
                self.spec_parts().metas,
                self.spec_parts().data,
                self.spec_parts().handles,
                old(set)@,
                final(set)@,
                signers@,
                r,
            ),
    {
        let parts = self.invoke_parts();
        let ix = parts.instruction();
        let handles = parts.accounts.to_handles();
        rt.invoke_signed(&ix, &handles, set, signers)
    }
}

} // verus!

use vstd::prelude::*;

use crate::account::{AccountHandle, AccountInfo};
use crate::data::{push_pubkey, InstructionData};
use crate::error::ProgramResult;
use crate::instruction::{readonly_meta, writable_meta, AccountMeta, SignerProof};
use crate::invoke::{AccountType, CanInvoke, ConstAccounts, InvokeParts, PartsModel};
use crate::pubkey::{spec_system_id, Pubkey};
use crate::runtime::{handles_in_range, Runtime};

verus! {

/// Drive the state of an uninitialized nonce account to initialized,
/// setting the nonce value.
///
/// No signatures are required to execute this call, enabling derived nonce
/// account addresses.
///
/// ### Accounts:
///   0. `[WRITE]` Nonce account
///   1. `[]` Recent blockhashes sysvar
///   2. `[]` Rent sysvar
pub struct InitializeNonceAccount {
    /// Nonce account.
    pub account: AccountHandle,
    /// Recent blockhashes sysvar.
    pub recent_blockhashes_sysvar: AccountHandle,
    /// Rent sysvar.
    pub rent_sysvar: AccountHandle,
    /// Entity authorized to execute nonce instructions on the account.
    pub authority: Pubkey,
}

/// The payload: the discriminator, then the authority's key.
pub open spec fn initialize_nonce_account_data(authority: Seq<u8>) -> Seq<u8> {
    seq![6u8, 0u8, 0u8, 0u8] + authority
}

impl CanInvoke for InitializeNonceAccount {
    type Accounts = ConstAccounts<3>;

    open spec fn wf(&self) -> bool {
        true
    }

    open spec fn spec_parts(&self) -> PartsModel {
        PartsModel {
            program_id: spec_system_id(),
            handles: seq![
                self.account.index,
                self.recent_blockhashes_sysvar.index,
                self.rent_sysvar.index,
            ],
            metas: seq![
                writable_meta(self.account.key),
                readonly_meta(self.recent_blockhashes_sysvar.key),
                readonly_meta(self.rent_sysvar.key),
            ],
            data: initialize_nonce_account_data(self.authority@),
        }
    }

    fn invoke_parts(&self) -> (p: InvokeParts<ConstAccounts<3>>) {
        let mut data: Vec<u8> = Vec::new();
        data.push(6);
        data.push(0);
        data.push(0);
        data.push(0);
        push_pubkey(&mut data, &self.authority);
        let mut metas: Vec<AccountMeta> = Vec::new();
        metas.push(AccountMeta::writable(&self.account.key));
        metas.push(AccountMeta::readonly(&self.recent_blockhashes_sysvar.key));
        metas.push(AccountMeta::readonly(&self.rent_sysvar.key));
        let p = InvokeParts {
            program_id: Pubkey::system_program(),
            accounts: ConstAccounts {
                handles: [
                    self.account.index,
                    self.recent_blockhashes_sysvar.index,
                    self.rent_sysvar.index,
                ],
            },
            account_metas: metas,
            data: InstructionData::Full(data),
        };
        proof {
            assert(p.model().handles =~= self.spec_parts().handles);
            assert(p.model().metas =~= self.spec_parts().metas);
            assert(p.model().data =~= self.spec_parts().data);
            assert(p.model().program_id =~= self.spec_parts().program_id);
            assert(p.model() =~= self.spec_parts());
        }
        p
    }
}

impl InitializeNonceAccount {
    /// Dispatch this initialization through a runtime, without signer
    /// proofs.
    pub fn invoke<R: Runtime>(&self, rt: &mut R, set: &mut Vec<AccountInfo>) -> (r: ProgramResult)
        requires
            handles_in_range(self.spec_parts().handles, old(set)@.len()),
        ensures
            R::invoke_post(
                *old(rt),
                *final(rt),
                self.spec_parts().program_id,
                self.spec_parts().metas,
                self.spec_parts().data,
                self.spec_parts().handles,
                old(set)@,
                final(set)@,
                Seq::<SignerProof>::empty(),
                r,
            ),
    {
        let signers: Vec<SignerProof> = Vec::new();
        self.invoke_signed(rt, set, &signers)
    }

    /// Dispatch this initialization through a runtime with the given
    /// signer proofs.
    pub fn invoke_signed<R: Runtime>(
        &self,
        rt: &mut R,
        set: &mut Vec<AccountInfo>,
        signers: &Vec<SignerProof>,
    ) -> (r: ProgramResult)
        requires
            handles_in_range(self.spec_parts().handles, old(set)@.len()),
        ensures
            R::invoke_post(
                *old(rt),
                *final(rt),
                self.spec_parts().program_id,
                self.spec_parts().metas,
                self.spec_parts().data,
                self.spec_parts().handles,
                old(set)@,
                final(set)@,
                signers@,
                r,
            ),
    {
        let parts = self.invoke_parts();
        let ix = parts.instruction();
        let handles = parts.accounts.to_handles();
        rt.invoke_signed(&ix, &handles, set, signers)
    }
}

} // verus!

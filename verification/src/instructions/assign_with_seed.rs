use vstd::prelude::*;

use crate::account::AccountHandle;
use crate::data::{pad_to, push_bytes, push_pubkey, push_u64_le, InstructionData};
use crate::instruction::{readonly_signer_meta, writable_meta, AccountMeta};
use crate::invoke::{CanInvoke, ConstAccounts, InvokeParts, PartsModel};
use crate::pubkey::{spec_system_id, Pubkey, MAX_SEED_LEN};
use vstd::bytes::spec_u64_to_le_bytes;

verus! {

/// Assign an account to a program based on a seed.
///
/// ### Accounts:
///   0. `[WRITE]` Assigned account
///   1. `[SIGNER]` Base account
pub struct AssignWithSeed {
    /// Assigned account.
    pub account: AccountHandle,
    /// Base account.
    ///
    /// The account matching the base key below must be provided as a
    /// signer, but may be the same as the funding account.
    pub base: AccountHandle,
    /// Seed bytes (ASCII), no longer than `MAX_SEED_LEN`.
    pub seed: Vec<u8>,
    /// Address of program that will own the account.
    pub owner: Pubkey,
}

/// The physical payload buffer: the header, the longest seed, and the
/// trailer.
pub const ASSIGN_WITH_SEED_CAPACITY: usize = 108;

/// The payload: the discriminator, the base key, the seed behind its
/// length, then the owner.
pub open spec fn assign_with_seed_data(base: Seq<u8>, seed: Seq<u8>, owner: Seq<u8>) -> Seq<u8> {
    seq![10u8, 0u8, 0u8, 0u8] + base + spec_u64_to_le_bytes(seed.len() as u64) + seed + owner
}

impl CanInvoke for AssignWithSeed {
    type Accounts = ConstAccounts<2>;

    open spec fn wf(&self) -> bool {
        self.seed@.len() <= MAX_SEED_LEN
    }

    open spec fn spec_parts(&self) -> PartsModel {
        PartsModel {
            program_id: spec_system_id(),
            handles: seq![self.account.index, self.base.index],
            metas: seq![writable_meta(self.account.key), readonly_signer_meta(self.base.key)],
            data: assign_with_seed_data(self.base.key@, self.seed@, self.owner@),
        }
    }

    fn invoke_parts(&self) -> (p: InvokeParts<ConstAccounts<2>>) {
        proof {
            vstd::bytes::lemma_auto_spec_u64_to_from_le_bytes();
        }
        let mut data: Vec<u8> = Vec::new();
        data.push(10);
        data.push(0);
        data.push(0);
        data.push(0);
        push_pubkey(&mut data, &self.base.key);
        push_u64_le(&mut data, self.seed.len() as u64);
        push_bytes(&mut data, &self.seed);
        push_pubkey(&mut data, &self.owner);
        let valid = data.len();
        pad_to(&mut data, ASSIGN_WITH_SEED_CAPACITY);
        let mut metas: Vec<AccountMeta> = Vec::new();
        metas.push(AccountMeta::writable(&self.account.key));
        metas.push(AccountMeta::readonly_signer(&self.base.key));
        let p = InvokeParts {
            program_id: Pubkey::system_program(),
            accounts: ConstAccounts { handles: [self.account.index, self.base.index] },
            account_metas: metas,
            data: InstructionData::Truncated(data, valid),
        };
        proof {
            assert(p.model().handles =~= self.spec_parts().handles);
            assert(p.model().metas =~= self.spec_parts().metas);
            assert(p.model().data =~= self.spec_parts().data);
            assert(p.model().program_id =~= self.spec_parts().program_id);
            assert(p.model() =~= self.spec_parts());
        }
        p
    }
}

} // verus!

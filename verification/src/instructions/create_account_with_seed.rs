use vstd::prelude::*;

use crate::account::AccountHandle;
use crate::data::{pad_to, push_bytes, push_pubkey, push_u64_le, InstructionData};
use crate::instruction::{readonly_signer_meta, writable_meta, writable_signer_meta, AccountMeta};
use crate::invoke::{CanInvoke, ConstAccounts, InvokeParts, PartsModel};
use crate::pubkey::{spec_system_id, Pubkey, MAX_SEED_LEN};
use vstd::bytes::spec_u64_to_le_bytes;

verus! {

/// Create a new account at an address derived from a base key and a seed.
///
/// ### Accounts:
///   0. `[WRITE, SIGNER]` Funding account
///   1. `[WRITE]` Created account
///   2. `[SIGNER]` (optional) Base account; the account matching the base
///      key below must be provided as a signer, but may be the same as the
///      funding account
pub struct CreateAccountWithSeed {
    /// Funding account.
    pub from: AccountHandle,
    /// New account.
    pub to: AccountHandle,
    /// Base account, where it differs from the funding account.
    pub base: Option<AccountHandle>,
    /// Seed bytes (ASCII), no longer than `MAX_SEED_LEN`.
    pub seed: Vec<u8>,
    /// Number of lamports to transfer to the new account.
    pub lamports: u64,
    /// Number of bytes of memory to allocate.
    pub space: u64,
    /// Address of program that will own the new account.
    pub owner: Pubkey,
}

/// The physical payload buffer: the header, the longest seed, and the
/// trailer.
pub const CREATE_ACCOUNT_WITH_SEED_CAPACITY: usize = 124;

/// The payload: the discriminator, the base key, the seed behind its
/// length, then the lamports, the space and the owner.
pub open spec fn create_account_with_seed_data(
    base: Seq<u8>,
    seed: Seq<u8>,
    lamports: u64,
    space: u64,
    owner: Seq<u8>,
) -> Seq<u8> {
    seq![3u8, 0u8, 0u8, 0u8] + base + spec_u64_to_le_bytes(seed.len() as u64) + seed
        + spec_u64_to_le_bytes(lamports) + spec_u64_to_le_bytes(space) + owner
}

impl CreateAccountWithSeed {
    /// The base account: the one given, or the funding account.
    pub open spec fn base_handle(&self) -> AccountHandle {
        match self.base {
            Some(b) => b,
            None => self.from,
        }
    }
}

impl CanInvoke for CreateAccountWithSeed {
    type Accounts = ConstAccounts<3>;

    open spec fn wf(&self) -> bool {
        self.seed@.len() <= MAX_SEED_LEN
    }

    open spec fn spec_parts(&self) -> PartsModel {
        PartsModel {
            program_id: spec_system_id(),
            handles: seq![self.from.index, self.to.index, self.base_handle().index],
            metas: seq![
                writable_signer_meta(self.from.key),
                writable_meta(self.to.key),
                readonly_signer_meta(self.base_handle().key),
            ],
            data: create_account_with_seed_data(
                self.base_handle().key@,
                self.seed@,
                self.lamports,
                self.space,
                self.owner@,
            ),
        }
    }

    fn invoke_parts(&self) -> (p: InvokeParts<ConstAccounts<3>>) {
        proof {
            vstd::bytes::lemma_auto_spec_u64_to_from_le_bytes();
        }
        let base = match &self.base {
            Some(b) => *b,
            None => self.from,
        };
        let mut data: Vec<u8> = Vec::new();
        data.push(3);
        data.push(0);
        data.push(0);
        data.push(0);
        push_pubkey(&mut data, &base.key);
        push_u64_le(&mut data, self.seed.len() as u64);
        push_bytes(&mut data, &self.seed);
        push_u64_le(&mut data, self.lamports);
        push_u64_le(&mut data, self.space);
        push_pubkey(&mut data, &self.owner);
        let valid = data.len();
        pad_to(&mut data, CREATE_ACCOUNT_WITH_SEED_CAPACITY);
        let mut metas: Vec<AccountMeta> = Vec::new();
        metas.push(AccountMeta::writable_signer(&self.from.key));
        metas.push(AccountMeta::writable(&self.to.key));
        metas.push(AccountMeta::readonly_signer(&base.key));
        let p = InvokeParts {
            program_id: Pubkey::system_program(),
            accounts: ConstAccounts {
                handles: [self.from.index, self.to.index, base.index],
            },
            account_metas: metas,
            data: InstructionData::Truncated(data, valid),
        };
        proof {
            assert(p.model().handles =~= self.spec_parts().handles);
            assert(p.model().metas =~= self.spec_parts().metas);
            assert(p.model().data =~= self.spec_parts().data);
            assert(p.model().program_id =~= self.spec_parts().program_id);
            assert(p.model() =~= self.spec_parts());
        }
        p
    }
}

} // verus!

use vstd::prelude::*;

use crate::account::AccountHandle;
use crate::data::{pad_to, push_bytes, push_pubkey, push_u64_le, InstructionData};
use crate::instruction::{readonly_signer_meta, writable_meta, AccountMeta};
use crate::invoke::{CanInvoke, ConstAccounts, InvokeParts, PartsModel};
use crate::pubkey::{spec_system_id, Pubkey, MAX_SEED_LEN};
use vstd::bytes::spec_u64_to_le_bytes;

verus! {

/// Transfer lamports from a derived address.
///
/// ### Accounts:
///   0. `[WRITE]` Funding account
///   1. `[SIGNER]` Base for funding account
///   2. `[WRITE]` Recipient account
pub struct TransferWithSeed {
    /// Funding account.
    pub from: AccountHandle,
    /// Base account.
    ///
    /// The account matching the base key must be provided as a signer, but
    /// may be the same as the funding account.
    pub base: AccountHandle,
    /// Recipient account.
    pub to: AccountHandle,
    /// Amount of lamports to transfer.
    pub lamports: u64,
    /// Seed bytes (ASCII), no longer than `MAX_SEED_LEN`.
    pub seed: Vec<u8>,
    /// Address of the program that owns the funding account.
    pub owner: Pubkey,
}

/// The physical payload buffer: the header, the longest seed, and the
/// trailer.
pub const TRANSFER_WITH_SEED_CAPACITY: usize = 84;

/// The payload: the discriminator, the lamports, the seed behind its
/// length, then the owner.
pub open spec fn transfer_with_seed_data(lamports: u64, seed: Seq<u8>, owner: Seq<u8>) -> Seq<u8> {
    seq![11u8, 0u8, 0u8, 0u8] + spec_u64_to_le_bytes(lamports)
        + spec_u64_to_le_bytes(seed.len() as u64) + seed + owner
}

impl CanInvoke for TransferWithSeed {
    type Accounts = ConstAccounts<3>;

    open spec fn wf(&self) -> bool {
        self.seed@.len() <= MAX_SEED_LEN
    }

    open spec fn spec_parts(&self) -> PartsModel {
        PartsModel {
            program_id: spec_system_id(),
            handles: seq![self.from.index, self.base.index, self.to.index],
            metas: seq![
                writable_meta(self.from.key),
                readonly_signer_meta(self.base.key),
                writable_meta(self.to.key),
            ],
            data: transfer_with_seed_data(self.lamports, self.seed@, self.owner@),
        }
    }

    fn invoke_parts(&self) -> (p: InvokeParts<ConstAccounts<3>>) {
        proof {
            vstd::bytes::lemma_auto_spec_u64_to_from_le_bytes();
        }
        let mut data: Vec<u8> = Vec::new();
        data.push(11);
        data.push(0);
        data.push(0);
        data.push(0);
        push_u64_le(&mut data, self.lamports);
        push_u64_le(&mut data, self.seed.len() as u64);
        push_bytes(&mut data, &self.seed);
        push_pubkey(&mut data, &self.owner);
        let valid = data.len();
        pad_to(&mut data, TRANSFER_WITH_SEED_CAPACITY);
        let mut metas: Vec<AccountMeta> = Vec::new();
        metas.push(AccountMeta::writable(&self.from.key));
        metas.push(AccountMeta::readonly_signer(&self.base.key));
        metas.push(AccountMeta::writable(&self.to.key));
        let p = InvokeParts {
            program_id: Pubkey::system_program(),
            accounts: ConstAccounts {
                handles: [self.from.index, self.base.index, self.to.index],
            },
            account_metas: metas,
            data: InstructionData::Truncated(data, valid),
        };
        proof {
            assert(p.model().handles =~= self.spec_parts().handles);
            assert(p.model().metas =~= self.spec_parts().metas);
            assert(p.model().data =~= self.spec_parts().data);
            assert(p.model().program_id =~= self.spec_parts().program_id);
            assert(p.model() =~= self.spec_parts());
        }
        p
    }
}

} // verus!

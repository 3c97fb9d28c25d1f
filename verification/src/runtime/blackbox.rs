use vstd::prelude::*;

use crate::account::AccountInfo;
use crate::error::{ProgramError, ProgramResult};
use crate::instruction::{AccountMeta, Instruction, SignerProof};
use crate::pubkey::Pubkey;
use crate::runtime::Runtime;

verus! {

/// The benchmarking backend: every operation accepts its arguments, hands
/// them to the optimisation barrier so the caller-side cost of producing
/// them cannot be elided, and returns a canned success. It performs no
/// validation and no call; it exists only to measure caller-side overhead.
pub struct BlackBoxRuntime;

/// Relies on core::hint::black_box: an identity function that only
/// limits how the compiler may optimise around its argument.
pub assume_specification<T>[ core::hint::black_box ](dummy: T) -> (r: T)
    ensures
        r == dummy,
;

impl Runtime for BlackBoxRuntime {
    /// Dispatch discards its arguments and succeeds.
    open spec fn invoke_post(
        pre: BlackBoxRuntime,
        post: BlackBoxRuntime,
        target: Seq<u8>,
        metas: Seq<AccountMeta>,
        data: Seq<u8>,
        handles: Seq<usize>,
        set_pre: Seq<AccountInfo>,
        set_post: Seq<AccountInfo>,
        signers: Seq<SignerProof>,
        r: ProgramResult,
    ) -> bool {
        set_post == set_pre && r == Ok::<(), ProgramError>(())
    }

    /// Unchecked dispatch behaves exactly as the checked one.
    open spec fn invoke_unchecked_post(
        pre: BlackBoxRuntime,
        post: BlackBoxRuntime,
        target: Seq<u8>,
        metas: Seq<AccountMeta>,
        data: Seq<u8>,
        handles: Seq<usize>,
        set_pre: Seq<AccountInfo>,
        set_post: Seq<AccountInfo>,
        signers: Seq<SignerProof>,
        r: ProgramResult,
    ) -> bool {
        set_post == set_pre && r == Ok::<(), ProgramError>(())
    }

    /// Logging discards its argument.
    open spec fn logged_message(pre: BlackBoxRuntime, post: BlackBoxRuntime, message: Seq<char>) -> bool {
        true
    }

    open spec fn logged_words(
        pre: BlackBoxRuntime,
        post: BlackBoxRuntime,
        a1: u64,
        a2: u64,
        a3: u64,
        a4: u64,
        a5: u64,
    ) -> bool {
        true
    }

    open spec fn logged_bytes(pre: BlackBoxRuntime, post: BlackBoxRuntime, blocks: Seq<Seq<u8>>) -> bool {
        true
    }

    open spec fn logged_compute_units(pre: BlackBoxRuntime, post: BlackBoxRuntime) -> bool {
        true
    }

    /// This backend cannot derive addresses; the operation may not be
    /// called on it.
    open spec fn derives_addresses() -> bool {
        false
    }

    open spec fn derived_post(
        pre: BlackBoxRuntime,
        post: BlackBoxRuntime,
        seeds: Seq<Seq<u8>>,
        program_id: Seq<u8>,
        r: Result<Pubkey, ProgramError>,
    ) -> bool {
        true
    }

    fn sol_log(&mut self, message: &str) {
        core::hint::black_box(message);
    }

    fn sol_log_64(&mut self, arg1: u64, arg2: u64, arg3: u64, arg4: u64, arg5: u64) {
        core::hint::black_box((arg1, arg2, arg3, arg4, arg5));
    }

    fn sol_log_data(&mut self, data: &Vec<Vec<u8>>) {
        core::hint::black_box(data);
    }

    fn sol_log_compute_units(&mut self) {
        core::hint::black_box(());
    }

    fn invoke_signed(
        &mut self,
        ix: &Instruction,
        handles: &Vec<usize>,
        set: &mut Vec<AccountInfo>,
        signers: &Vec<SignerProof>,
    ) -> (r: ProgramResult) {
        core::hint::black_box((ix, handles, signers));
        Ok(())
    }

    fn invoke_signed_access_unchecked(
        &mut self,
        ix: &Instruction,
        handles: &Vec<usize>,
        set: &mut Vec<AccountInfo>,
        signers: &Vec<SignerProof>,
    ) -> (r: ProgramResult) {
        core::hint::black_box((ix, handles, signers));
        Ok(())
    }

    /// Never callable: this backend does not derive addresses.
    fn sol_create_program_address(
        &mut self,
        seeds: &Vec<Vec<u8>>,
        program_id: &Pubkey,
    ) -> (r: Result<Pubkey, ProgramError>) {
        core::hint::black_box((seeds, program_id));
        Err(ProgramError::HostReportedFailure(0))
    }
}

} // verus!

use vstd::prelude::*;

use crate::account::AccountInfo;
use crate::data::InstructionData;
use crate::error::ProgramResult;
use crate::instruction::{AccountMeta, Instruction, SignerProof};
use crate::pubkey::Pubkey;
use crate::runtime::{handles_in_range, Runtime};

verus! {

/// Implementation detail: the closed set of account-list shapes and
/// invokers this crate defines.
pub trait Sealed {}

/// An ordered list of handles into the caller's account table. Two shapes
/// exist: one whose length is a compile-time constant, one whose length is
/// known only at run time.
pub trait AccountType: Sealed {
    /// The handle positions, in order.
    spec fn spec_handles(&self) -> Seq<usize>;

    /// The handles as a vector.
    fn to_handles(&self) -> (v: Vec<usize>)
        ensures
            v@ == self.spec_handles(),
    ;
}

/// An account list whose length is fixed at compile time, so a request
/// bound to it is shape-checked without any allocation.
#[derive(Clone, Copy, Debug)]
pub struct ConstAccounts<const N: usize> {
    pub handles: [usize; N],
}

/// An account list whose length is known only at run time.
#[derive(Clone, Debug)]
pub struct SliceAccounts {
    pub handles: Vec<usize>,
}

impl<const N: usize> Sealed for ConstAccounts<N> {}

impl Sealed for SliceAccounts {}

impl<const N: usize> AccountType for ConstAccounts<N> {
    open spec fn spec_handles(&self) -> Seq<usize> {
        self.handles@
    }

    fn to_handles(&self) -> (v: Vec<usize>) {
        let mut v: Vec<usize> = Vec::new();
        let mut i: usize = 0;
        while i < N
            invariant
                i <= N,
                self.handles@.len() == N,
                v@ =~= self.handles@.subrange(0, i as int),
            decreases N - i,
        {
            v.push(self.handles[i]);
            i += 1;
        }
        proof {
            assert(v@ =~= self.handles@);
        }
        v
    }
}

impl AccountType for SliceAccounts {
    open spec fn spec_handles(&self) -> Seq<usize> {
        self.handles@
    }

    fn to_handles(&self) -> (v: Vec<usize>) {
        let mut v: Vec<usize> = Vec::new();
        let mut i: usize = 0;
        while i < self.handles.len()
            invariant
                i <= self.handles@.len(),
                v@ =~= self.handles@.subrange(0, i as int),
            decreases self.handles@.len() - i,
        {
            v.push(self.handles[i]);
            i += 1;
        }
        proof {
            assert(v@ =~= self.handles@);
        }
        v
    }
}

/// The mathematical content of one invocation request: which program, which
/// handles, which roles, which payload bytes.
#[verifier::ext_equal]
pub struct PartsModel {
    /// The target program's identifier bytes.
    pub program_id: Seq<u8>,
    /// The handles into the caller's account table, in role order.
    pub handles: Seq<usize>,
    /// The declared roles, in order.
    pub metas: Seq<AccountMeta>,
    /// The meaningful payload bytes.
    pub data: Seq<u8>,
}

/// Everything one dispatch needs, rendered from a typed request: the target
/// program, the account handles, the declared roles, and the payload.
pub struct InvokeParts<A> {
    /// The program to invoke.
    pub program_id: Pubkey,
    /// The handles into the caller's account table, in role order.
    pub accounts: A,
    /// The declared roles, in order.
    pub account_metas: Vec<AccountMeta>,
    /// The payload.
    pub data: InstructionData,
}

impl<A: AccountType> InvokeParts<A> {
    /// One handle per declared role, and a sound payload.
    pub open spec fn wf(&self) -> bool {
        &&& self.data.wf()
        &&& self.accounts.spec_handles().len() == self.account_metas@.len()
    }

    /// The request these parts render.
    pub open spec fn model(&self) -> PartsModel {
        PartsModel {
            program_id: self.program_id@,
            handles: self.accounts.spec_handles(),
            metas: self.account_metas@,
            data: self.data@,
        }
    }

    /// Render the wire descriptor: the target, the roles, and the
    /// meaningful payload bytes.
    pub fn instruction(&self) -> (ix: Instruction)
        requires
            self.data.wf(),
        ensures
            ix.program_id == self.program_id,
            ix.accounts@ == self.account_metas@,
            ix.data@ == self.data@,
    {
        let mut metas: Vec<AccountMeta> = Vec::new();
        let mut i: usize = 0;
        while i < self.account_metas.len()
            invariant
                i <= self.account_metas@.len(),
                metas@ =~= self.account_metas@.subrange(0, i as int),
            decreases self.account_metas@.len() - i,
        {
            metas.push(self.account_metas[i]);
            i += 1;
        }
        proof {
            assert(metas@ =~= self.account_metas@);
        }
        Instruction { program_id: self.program_id, accounts: metas, data: self.data.payload() }
    }
}

/// A typed request able to render, on demand, everything one dispatch
/// needs. Implementors fix the number and order of their accounts and the
/// exact payload layout; both are stated by `spec_parts`.
pub trait CanInvoke: Sized {
    /// The shape of the request's account list.
    type Accounts: AccountType;

    /// The inputs on which rendering is defined (for example, a seed no
    /// longer than the documented maximum).
    spec fn wf(&self) -> bool;

    /// The request's exact content: program, handles, roles, payload bytes.
    spec fn spec_parts(&self) -> PartsModel;

    /// Render the request.
    fn invoke_parts(&self) -> (p: InvokeParts<Self::Accounts>)
        requires
            self.wf(),
        ensures
            p.wf(),
            p.model() == self.spec_parts(),
    ;

    /// View the request through the uniform dispatch interface.
    fn as_invoker<'a>(&'a self) -> (inv: Invoker<'a, Self>)
        ensures
            inv.inner == self,
    {
        Invoker { inner: self }
    }
}

/// The uniform dispatch interface over any typed request: render the
/// request and dispatch it through a runtime, with or without signer
/// proofs.
pub trait Invoke: Sealed {
    /// The inputs on which the underlying request renders.
    spec fn request_wf(&self) -> bool;

    /// The underlying request's content.
    spec fn parts(&self) -> PartsModel;

    /// Render and dispatch, without signer proofs.
    fn invoke<R: Runtime>(&self, rt: &mut R, set: &mut Vec<AccountInfo>) -> (r: ProgramResult)
        requires
            self.request_wf(),
            handles_in_range(self.parts().handles, old(set)@.len()),
        ensures
            R::invoke_post(
                *old(rt),
                *final(rt),
                self.parts().program_id,
                self.parts().metas,
                self.parts().data,
                self.parts().handles,
                old(set)@,
                final(set)@,
                Seq::<SignerProof>::empty(),
                r,
            ),
    ;

    /// Render and dispatch with the given signer proofs.
    fn invoke_signed<R: Runtime>(
        &self,
        rt: &mut R,
        set: &mut Vec<AccountInfo>,
        signers: &Vec<SignerProof>,
    ) -> (r: ProgramResult)
        requires
            self.request_wf(),
            handles_in_range(self.parts().handles, old(set)@.len()),
        ensures
            R::invoke_post(
                *old(rt),
                *final(rt),
                self.parts().program_id,
                self.parts().metas,
                self.parts().data,
                self.parts().handles,
                old(set)@,
                final(set)@,
                signers@,
                r,
            ),
    ;
}

/// Dispatches a borrowed request through the uniform interface.
pub struct Invoker<'a, T> {
    pub inner: &'a T,
}

impl<'a, T: CanInvoke> Sealed for Invoker<'a, T> {}

impl<'a, T: CanInvoke> Invoke for Invoker<'a, T> {
    open spec fn request_wf(&self) -> bool {
        (*self.inner).wf()
    }

    open spec fn parts(&self) -> PartsModel {
        (*self.inner).spec_parts()
    }

    fn invoke<R: Runtime>(&self, rt: &mut R, set: &mut Vec<AccountInfo>) -> (r: ProgramResult) {
        let signers: Vec<SignerProof> = Vec::new();
        self.invoke_signed(rt, set, &signers)
    }

    fn invoke_signed<R: Runtime>(
        &self,
        rt: &mut R,
        set: &mut Vec<AccountInfo>,
        signers: &Vec<SignerProof>,
    ) -> (r: ProgramResult) {
        let parts = self.inner.invoke_parts();
        let ix = parts.instruction();
        let handles = parts.accounts.to_handles();
        rt.invoke_signed(&ix, &handles, set, signers)
    }
}

} // verus!

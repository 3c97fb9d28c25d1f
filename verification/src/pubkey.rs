use vstd::prelude::*;

verus! {

/// Number of bytes in an identifier.
pub const PUBKEY_BYTES: usize = 32;

/// The most seeds one address derivation may take.
pub const MAX_SEEDS: usize = 16;

/// The longest seed one address derivation may take.
pub const MAX_SEED_LEN: usize = 32;

/// Fixed-width opaque identifier of a program or an account.
///
/// Identifiers are immutable values compared by byte equality.
#[derive(Clone, Copy, Debug, PartialEq, Eq)]
pub struct Pubkey {
    pub bytes: [u8; 32],
}

impl View for Pubkey {
    type V = Seq<u8>;

    open spec fn view(&self) -> Seq<u8> {
        self.bytes@
    }
}

/// The identifier of the system program: all zero bytes.
pub open spec fn spec_system_id() -> Seq<u8> {
    Seq::new(32, |i: int| 0u8)
}

impl Pubkey {
    pub fn from_bytes(bytes: [u8; 32]) -> (k: Pubkey)
        ensures
            k@ == bytes@,
    {
        Pubkey { bytes }
    }

    /// Byte equality of two identifiers.
    pub fn key_eq(&self, other: &Pubkey) -> (r: bool)
        ensures
            r == (self@ == other@),
    {
        let mut i: usize = 0;
        while i < PUBKEY_BYTES
            invariant
                i <= 32,
                forall|j: int| 0 <= j < i ==> self.bytes@[j] == other.bytes@[j],
            decreases 32 - i,
        {
            if self.bytes[i] != other.bytes[i] {
                assert(self@[i as int] != other@[i as int]);
                return false;
            }
            i += 1;
        }
        proof {
            assert(self@ =~= other@);
        }
        true
    }

    /// The identifier's bytes as an owned vector.
    pub fn to_vec(&self) -> (v: Vec<u8>)
        ensures
            v@ == self@,
    {
        let mut v: Vec<u8> = Vec::new();
        let mut i: usize = 0;
        while i < PUBKEY_BYTES
            invariant
                i <= 32,
                v@ =~= self@.subrange(0, i as int),
            decreases 32 - i,
        {
            v.push(self.bytes[i]);
            i += 1;
        }
        proof {
            assert(v@ =~= self@);
        }
        v
    }

    /// The system program's identifier.
    pub fn system_program() -> (k: Pubkey)
        ensures
            k@ == spec_system_id(),
    {
        let bytes = [0u8; 32];
        proof {
            assert(bytes@ =~= spec_system_id());
        }
        Pubkey { bytes }
    }
}

} // verus!

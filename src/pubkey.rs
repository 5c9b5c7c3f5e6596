use vstd::prelude::*;

verus! {

/// The number of bytes in an identity.
pub const PUBKEY_BYTES: usize = 32;

/// An identity (an account address or a signer), as its 32 bytes.
#[derive(Clone, Copy, Debug)]
pub struct Pubkey {
    pub bytes: [u8; 32],
}

/// The bytes of the unset identity: all zero.
pub open spec fn unset_bytes() -> Seq<u8> {
    Seq::new(32, |i: int| 0u8)
}

impl View for Pubkey {
    type V = Seq<u8>;

    open spec fn view(&self) -> Seq<u8> {
        self.bytes@
    }
}

impl Pubkey {
    /// Builds an identity from its bytes.
    pub fn new(bytes: [u8; 32]) -> (r: Pubkey)
        ensures
            r@ == bytes@,
    {
        Pubkey { bytes }
    }

    /// The unset identity, all of whose bytes are zero.
    pub fn default_key() -> (r: Pubkey)
        ensures
            r@ == unset_bytes(),
    {
        let r = Pubkey { bytes: [0u8; 32] };
        assert(r@ =~= unset_bytes());
        r
    }

    /// Whether this is the unset identity.
    pub fn is_default(&self) -> (r: bool)
        ensures
            r == (self@ == unset_bytes()),
    {
        let mut i: usize = 0;
        while i < PUBKEY_BYTES
            invariant
                i <= 32,
                self@.len() == 32,
                forall|j: int| 0 <= j < i ==> self@[j] == 0u8,
            decreases 32 - i,
        {
            if self.bytes[i] != 0 {
                assert(self@[i as int] != unset_bytes()[i as int]);
                return false;
            }
            i = i + 1;
        }
        assert(self@ =~= unset_bytes());
        true
    }

    /// Whether two identities are the same.
    pub fn same_as(&self, other: &Pubkey) -> (r: bool)
        ensures
            r == (self@ == other@),
    {
        let mut i: usize = 0;
        while i < PUBKEY_BYTES
            invariant
                i <= 32,
                self@.len() == 32,
                other@.len() == 32,
                forall|j: int| 0 <= j < i ==> self@[j] == other@[j],
            decreases 32 - i,
        {
            if self.bytes[i] != other.bytes[i] {
                assert(self@[i as int] != other@[i as int]);
                return false;
            }
            i = i + 1;
        }
        assert(self@ =~= other@);
        true
    }
}

} // verus!
